//! The words of the filter language, letter by letter.

use crate::text::fold;
use vstd::prelude::*;

verus! {

/// A text without ASCII capital letters is its own folding.
pub proof fn lemma_fold_of_small(s: Seq<char>)
    requires
        forall|i: int| 0 <= i < s.len() ==> !('A' <= #[trigger] s[i] && s[i] <= 'Z'),
    ensures
        fold(s) == s,
{
    assert(fold(s) =~= s);
}

/// The names of the fields, spelled out.
pub proof fn lemma_field_words()
    ensures
        "status"@ == seq!['s', 't', 'a', 't', 'u', 's'],
        "due"@ == seq!['d', 'u', 'e'],
        "tags"@ == seq!['t', 'a', 'g', 's'],
        "project"@ == seq!['p', 'r', 'o', 'j', 'e', 'c', 't'],
        "area"@ == seq!['a', 'r', 'e', 'a'],
        "name"@ == seq!['n', 'a', 'm', 'e'],
        "notes"@ == seq!['n', 'o', 't', 'e', 's'],
{
    reveal_strlit("status");
    reveal_strlit("due");
    reveal_strlit("tags");
    reveal_strlit("project");
    reveal_strlit("area");
    reveal_strlit("name");
    reveal_strlit("notes");
    assert("status"@ =~= seq!['s', 't', 'a', 't', 'u', 's']);
    assert("due"@ =~= seq!['d', 'u', 'e']);
    assert("tags"@ =~= seq!['t', 'a', 'g', 's']);
    assert("project"@ =~= seq!['p', 'r', 'o', 'j', 'e', 'c', 't']);
    assert("area"@ =~= seq!['a', 'r', 'e', 'a']);
    assert("name"@ =~= seq!['n', 'a', 'm', 'e']);
    assert("notes"@ =~= seq!['n', 'o', 't', 'e', 's']);
}

/// The keywords as the tokenizer compares them, spelled out.
pub proof fn lemma_small_keywords()
    ensures
        "and"@ == seq!['a', 'n', 'd'],
        "or"@ == seq!['o', 'r'],
        "not"@ == seq!['n', 'o', 't'],
        "like"@ == seq!['l', 'i', 'k', 'e'],
        "contains"@ == seq!['c', 'o', 'n', 't', 'a', 'i', 'n', 's'],
        "is"@ == seq!['i', 's'],
        "null"@ == seq!['n', 'u', 'l', 'l'],
        "today"@ == seq!['t', 'o', 'd', 'a', 'y'],
        "tomorrow"@ == seq!['t', 'o', 'm', 'o', 'r', 'r', 'o', 'w'],
{
    reveal_strlit("and");
    reveal_strlit("or");
    reveal_strlit("not");
    reveal_strlit("like");
    reveal_strlit("contains");
    reveal_strlit("is");
    reveal_strlit("null");
    reveal_strlit("today");
    reveal_strlit("tomorrow");
    assert("and"@ =~= seq!['a', 'n', 'd']);
    assert("or"@ =~= seq!['o', 'r']);
    assert("not"@ =~= seq!['n', 'o', 't']);
    assert("like"@ =~= seq!['l', 'i', 'k', 'e']);
    assert("contains"@ =~= seq!['c', 'o', 'n', 't', 'a', 'i', 'n', 's']);
    assert("is"@ =~= seq!['i', 's']);
    assert("null"@ =~= seq!['n', 'u', 'l', 'l']);
    assert("today"@ =~= seq!['t', 'o', 'd', 'a', 'y']);
    assert("tomorrow"@ =~= seq!['t', 'o', 'm', 'o', 'r', 'r', 'o', 'w']);
}

/// The keywords as the canonical text writes them, spelled out.
pub proof fn lemma_capital_keywords()
    ensures
        "LIKE"@ == seq!['L', 'I', 'K', 'E'],
        "CONTAINS"@ == seq!['C', 'O', 'N', 'T', 'A', 'I', 'N', 'S'],
        "IS NULL"@ == seq!['I', 'S', ' ', 'N', 'U', 'L', 'L'],
        "NOT ("@ == seq!['N', 'O', 'T', ' ', '('],
        ") AND ("@ == seq![')', ' ', 'A', 'N', 'D', ' ', '('],
        ") OR ("@ == seq![')', ' ', 'O', 'R', ' ', '('],
        "="@ == seq!['='],
        "!="@ == seq!['!', '='],
        "<"@ == seq!['<'],
        ">"@ == seq!['>'],
{
    reveal_strlit("LIKE");
    reveal_strlit("CONTAINS");
    reveal_strlit("IS NULL");
    reveal_strlit("NOT (");
    reveal_strlit(") AND (");
    reveal_strlit(") OR (");
    reveal_strlit("=");
    reveal_strlit("!=");
    reveal_strlit("<");
    reveal_strlit(">");
    assert("LIKE"@ =~= seq!['L', 'I', 'K', 'E']);
    assert("CONTAINS"@ =~= seq!['C', 'O', 'N', 'T', 'A', 'I', 'N', 'S']);
    assert("IS NULL"@ =~= seq!['I', 'S', ' ', 'N', 'U', 'L', 'L']);
    assert("NOT ("@ =~= seq!['N', 'O', 'T', ' ', '(']);
    assert(") AND ("@ =~= seq![')', ' ', 'A', 'N', 'D', ' ', '(']);
    assert(") OR ("@ =~= seq![')', ' ', 'O', 'R', ' ', '(']);
    assert("="@ =~= seq!['=']);
    assert("!="@ =~= seq!['!', '=']);
    assert("<"@ =~= seq!['<']);
    assert(">"@ =~= seq!['>']);
}

} // verus!
