//! The scripts that drive the application, in JavaScript for Automation.
//!
//! A script that depends on a value is kept in parts: the value is written
//! between two parts that follow each other.

use vstd::prelude::*;

verus! {

/// Closes the properties of a new item after its name.
pub const AFTER_NAME: &'static str = " };\n    ";

/// Starts a new line of a script.
pub const BREAK: &'static str = "\n    ";

/// Lists the to-dos of a built-in list, whose name stands between the two parts.
pub const LIST_TODOS_HEAD: &'static str = r"(() => {
    const Things = Application('Things3');
    const list = Things.lists.byName('";

/// The part `tail` of the script that starts with `LIST_TODOS_HEAD`.
pub const LIST_TODOS_TAIL: &'static str = r"');
    const todos = list.toDos();
    return JSON.stringify(todos.map(t => {
        let tags = [];
        try {
            const tagNames = t.tagNames();
            if (tagNames && tagNames.length > 0) {
                tags = tagNames.split(', ').filter(x => x.length > 0);
            }
        } catch(e) {}

        let dueDate = null;
        try {
            const d = t.dueDate();
            if (d) dueDate = d.toISOString().split('T')[0];
        } catch(e) {}

        return {
            id: t.id(),
            name: t.name(),
            notes: t.notes() || '',
            status: t.status(),
            dueDate: dueDate,
            tags: tags,
            project: t.project() ? t.project().name() : null,
            area: t.area() ? t.area().name() : null,
            checklistItems: [],
            creationDate: t.creationDate() ? t.creationDate().toISOString() : null,
            modificationDate: t.modificationDate() ? t.modificationDate().toISOString() : null
        };
    }));
})()";

/// Shows one to-do, whose identifier stands between the two parts.
pub const SHOW_TODO_HEAD: &'static str = r"(() {
    const Things = Application('Things3');
    const t = Things.toDos.byId('";

/// The part `tail` of the script that starts with `SHOW_TODO_HEAD`.
pub const SHOW_TODO_TAIL: &'static str = r"');
    if (!t.exists()) throw new Error('Can\'t get todo');

    let tags = [];
    try {
        const tagNames = t.tagNames();
        if (tagNames && tagNames.length > 0) {
            tags = tagNames.split(', ').filter(x => x.length > 0);
        }
    } catch(e) {}

    let dueDate = null;
    try {
        const d = t.dueDate();
        if (d) dueDate = d.toISOString().split('T')[0];
    } catch(e) {}

    let checklistItems = [];
    try {
        const items = t.toDoS();
        if (items && items.length > 0) {
            checklistItems = items.map(i => ({
                name: i.name(),
                completed: i.status() === 'completed'
            }));
        }
    } catch(e) {}

    return JSON.stringify({
        id: t.id(),
        name: t.name(),
        notes: t.notes() || '',
        status: t.status(),
        dueDate: dueDate,
        tags: tags,
        project: t.project() ? t.project().name() : null,
        area: t.area() ? t.area().name() : null,
        checklistItems: checklistItems,
        creationDate: t.creationDate() ? t.creationDate().toISOString() : null,
        modificationDate: t.modificationDate() ? t.modificationDate().toISOString() : null
    });
})()";

/// Schedules the new to-do for the date that stands between the two parts.
pub const SCHEDULE_HEAD: &'static str = r"
    Things.schedule(todo, { for: new Date('";

/// The part `tail` of the script that starts with `SCHEDULE_HEAD`.
pub const SCHEDULE_TAIL: &'static str = r"') });";

/// Moves the to-do to a list, or else to a project, of the name that stands between the parts.
pub const MOVE_TO_LIST_HEAD: &'static str = r"
    const targetList = Things.lists.byName(";

/// The part `mid` of the script that starts with `MOVE_TO_LIST_HEAD`.
pub const MOVE_TO_LIST_MID: &'static str = r");
    if (targetList.exists()) {
        Things.move(todo, { to: targetList });
    } else {
        const targetProject = Things.projects.whose({ name: ";

/// The part `tail` of the script that starts with `MOVE_TO_LIST_HEAD`.
pub const MOVE_TO_LIST_TAIL: &'static str = r" })[0];
        if (targetProject) {
            Things.move(todo, { to: targetProject });
        }
    }";

/// Puts the to-do into the area whose name stands between the two parts.
pub const TODO_AREA_HEAD: &'static str = r"
    const targetArea = Things.areas.byName(";

/// The part `tail` of the script that starts with `TODO_AREA_HEAD`.
pub const TODO_AREA_TAIL: &'static str = r");
    if (targetArea.exists()) {
        todo.area = targetArea;
    }";

/// Adds the checklist items that stand between the two parts.
pub const CHECKLIST_HEAD: &'static str = r"
    const checklistItems = [";

/// The part `tail` of the script that starts with `CHECKLIST_HEAD`.
pub const CHECKLIST_TAIL: &'static str = r"];
    for (const item of checklistItems) {
        Things.make({ new: 'toDo', withProperties: { name: item }, at: todo });
    }";

/// Creates a to-do.
pub const ADD_TODO_HEAD: &'static str = r"(() => {
    const Things = Application('Things3');
    const props = { name: ";

/// The part `make` of the script that starts with `ADD_TODO_HEAD`.
pub const ADD_TODO_MAKE: &'static str = r"
    const todo = Things.make({ new: 'toDo', withProperties: props });
    ";

/// The part `tail` of the script that starts with `ADD_TODO_HEAD`.
pub const ADD_TODO_TAIL: &'static str = r"
    return JSON.stringify({ id: todo.id(), name: todo.name() });
})()";

/// Completes the to-do whose identifier stands between the two parts.
pub const COMPLETE_TODO_HEAD: &'static str = r"(() => {
    const Things = Application('Things3');
    const todo = Things.toDos.byId('";

/// The part `tail` of the script that starts with `COMPLETE_TODO_HEAD`.
pub const COMPLETE_TODO_TAIL: &'static str = r"');
    if (!todo.exists()) throw new Error('Can\'t get todo');
    todo.status = 'completed';
})()";

/// Cancels the to-do whose identifier stands between the two parts.
pub const CANCEL_TODO_HEAD: &'static str = r"(() => {
    const Things = Application('Things3');
    const todo = Things.toDos.byId('";

/// The part `tail` of the script that starts with `CANCEL_TODO_HEAD`.
pub const CANCEL_TODO_TAIL: &'static str = r"');
    if (!todo.exists()) throw new Error('Can\'t get todo');
    todo.status = 'canceled';
})()";

/// Lists all projects.
pub const ALL_PROJECTS: &'static str = r"(() => {
    const Things = Application('Things3');
    const projects = Things.projects();
    return JSON.stringify(projects.map(p => {
        let tags = [];
        try {
            const tagNames = p.tagNames();
            if (tagNames && tagNames.length > 0) {
                tags = tagNames.split(', ').filter(x => x.length > 0);
            }
        } catch(e) {}

        let dueDate = null;
        try {
            const d = p.dueDate();
            if (d) dueDate = d.toISOString().split('T')[0];
        } catch(e) {}

        return {
            id: p.id(),
            name: p.name(),
            notes: p.notes() || '',
            status: p.status(),
            area: p.area() ? p.area().name() : null,
            tags: tags,
            dueDate: dueDate,
            creationDate: p.creationDate() ? p.creationDate().toISOString() : null
        };
    }));
})()";

/// Puts the project into the area whose name stands between the two parts.
pub const PROJECT_AREA_HEAD: &'static str = r"
    const targetArea = Things.areas.byName(";

/// The part `tail` of the script that starts with `PROJECT_AREA_HEAD`.
pub const PROJECT_AREA_TAIL: &'static str = r");
    if (targetArea.exists()) {
        project.area = targetArea;
    }";

/// Creates a project.
pub const ADD_PROJECT_HEAD: &'static str = r"(() => {
    const Things = Application('Things3');
    const props = { name: ";

/// The part `make` of the script that starts with `ADD_PROJECT_HEAD`.
pub const ADD_PROJECT_MAKE: &'static str = r"
    const project = Things.make({ new: 'project', withProperties: props });
    ";

/// The part `tail` of the script that starts with `ADD_PROJECT_HEAD`.
pub const ADD_PROJECT_TAIL: &'static str = r"
    return JSON.stringify({ id: project.id(), name: project.name() });
})()";

/// Lists all areas.
pub const ALL_AREAS: &'static str = r"(() => {
    const Things = Application('Things3');
    const areas = Things.areas();
    return JSON.stringify(areas.map(a => {
        let tags = [];
        try {
            const tagNames = a.tagNames();
            if (tagNames && tagNames.length > 0) {
                tags = tagNames.split(', ').filter(x => x.length > 0);
            }
        } catch(e) {}

        return {
            id: a.id(),
            name: a.name(),
            tags: tags
        };
    }));
})()";

/// Lists all tags.
pub const ALL_TAGS: &'static str = r"(() => {
    const Things = Application('Things3');
    const tags = Things.tags();
    return JSON.stringify(tags.map(t => ({
        id: t.id(),
        name: t.name()
    })));
})()";

/// Lists the to-dos whose name or notes hold the text that stands between the two parts.
pub const SEARCH_HEAD: &'static str = r"(() => {
    const Things = Application('Things3');
    const query = ";

/// The part `tail` of the script that starts with `SEARCH_HEAD`.
pub const SEARCH_TAIL: &'static str = r".toLowerCase();
    const todos = Things.toDos().filter(t => {
        const name = t.name().toLowerCase();
        const notes = (t.notes() || '').toLowerCase();
        return name.includes(query) || notes.includes(query);
    });
    return JSON.stringify(todos.map(t => {
        let tags = [];
        try {
            const tagNames = t.tagNames();
            if (tagNames && tagNames.length > 0) {
                tags = tagNames.split(', ').filter(x => x.length > 0);
            }
        } catch(e) {}

        let dueDate = null;
        try {
            const d = t.dueDate();
            if (d) dueDate = d.toISOString().split('T')[0];
        } catch(e) {}

        return {
            id: t.id(),
            name: t.name(),
            notes: t.notes() || '',
            status: t.status(),
            dueDate: dueDate,
            tags: tags,
            project: t.project() ? t.project().name() : null,
            area: t.area() ? t.area().name() : null,
            checklistItems: [],
            creationDate: t.creationDate() ? t.creationDate().toISOString() : null,
            modificationDate: t.modificationDate() ? t.modificationDate().toISOString() : null
        };
    }));
})()";

/// Shows the built-in list whose name stands between the two parts.
pub const OPEN_LIST_HEAD: &'static str = r"(() => {
    const Things = Application('Things3');
    Things.activate();
    Things.show(Things.lists.byName('";

/// The part `tail` of the script that starts with `OPEN_LIST_HEAD`.
pub const OPEN_LIST_TAIL: &'static str = r"'));
})()";

/// Shows the to-do, or else the project, whose identifier stands between the parts.
pub const OPEN_ITEM_HEAD: &'static str = r"(() => {
    const Things = Application('Things3');
    Things.activate();
    const todo = Things.toDos.byId('";

/// The part `mid` of the script that starts with `OPEN_ITEM_HEAD`.
pub const OPEN_ITEM_MID: &'static str = r"');
    if (todo.exists()) {
        Things.show(todo);
    } else {
        const project = Things.projects.byId('";

/// The part `tail` of the script that starts with `OPEN_ITEM_HEAD`.
pub const OPEN_ITEM_TAIL: &'static str = r"');
        if (project.exists()) {
            Things.show(project);
        } else {
            throw new Error('Can\'t get item');
        }
    }
})()";

/// Adds tags to a to-do.
pub const ADD_TAGS_HEAD: &'static str = r"(() => {
    const Things = Application('Things3');
    const todo = Things.toDos.byId('";

/// The part `after id` of the script that starts with `ADD_TAGS_HEAD`.
pub const ADD_TAGS_AFTER_ID: &'static str = r"');
    if (!todo.exists()) throw new Error('Can\'t get todo');
    const currentTags = todo.tagNames() || '';
    const newTags = currentTags ? currentTags + ', ' + ";

/// The part `or else` of the script that starts with `ADD_TAGS_HEAD`.
pub const ADD_TAGS_OR_ELSE: &'static str = r" : ";

/// The part `tail` of the script that starts with `ADD_TAGS_HEAD`.
pub const ADD_TAGS_TAIL: &'static str = r";
    todo.tagNames = newTags;
})()";

/// Moves a to-do to a list or a project.
pub const MOVE_TODO_HEAD: &'static str = r"(() => {
    const Things = Application('Things3');
    const todo = Things.toDos.byId('";

/// The part `after id` of the script that starts with `MOVE_TODO_HEAD`.
pub const MOVE_TODO_AFTER_ID: &'static str = r"');
    if (!todo.exists()) throw new Error('Can\'t get todo');
    const targetList = Things.lists.byName(";

/// The part `or project` of the script that starts with `MOVE_TODO_HEAD`.
pub const MOVE_TODO_OR_PROJECT: &'static str = r");
    if (!targetList.exists()) {
        const targetProject = Things.projects.whose({ name: ";

/// The part `tail` of the script that starts with `MOVE_TODO_HEAD`.
pub const MOVE_TODO_TAIL: &'static str = r" })[0];
        if (targetProject) {
            Things.move(todo, { to: targetProject });
        } else {
            throw new Error('Can\'t find list or project');
        }
    } else {
        Things.move(todo, { to: targetList });
    }
})()";

/// Sets the due date of a to-do.
pub const SET_DUE_HEAD: &'static str = r"(() => {
    const Things = Application('Things3');
    const todo = Things.toDos.byId('";

/// The part `after id` of the script that starts with `SET_DUE_HEAD`.
pub const SET_DUE_AFTER_ID: &'static str = r"');
    if (!todo.exists()) throw new Error('Can\'t get todo');
    todo.dueDate = new Date('";

/// The part `tail` of the script that starts with `SET_DUE_HEAD`.
pub const SET_DUE_TAIL: &'static str = r"');
})()";

/// Clears the due date of the to-do whose identifier stands between the two parts.
pub const CLEAR_DUE_HEAD: &'static str = r"(() => {
    const Things = Application('Things3');
    const todo = Things.toDos.byId('";

/// The part `tail` of the script that starts with `CLEAR_DUE_HEAD`.
pub const CLEAR_DUE_TAIL: &'static str = r"');
    if (!todo.exists()) throw new Error('Can\'t get todo');
    todo.dueDate = null;
})()";

/// Moves the to-do whose identifier stands between the two parts to Someday.
pub const TO_SOMEDAY_HEAD: &'static str = r"(() => {
    const Things = Application('Things3');
    const todo = Things.toDos.byId('";

/// The part `tail` of the script that starts with `TO_SOMEDAY_HEAD`.
pub const TO_SOMEDAY_TAIL: &'static str = r"');
    if (!todo.exists()) throw new Error('Can\'t get todo');
    const somedayList = Things.lists.byName('Someday');
    Things.move(todo, { to: somedayList });
})()";

/// Changes a to-do.
pub const UPDATE_TODO_HEAD: &'static str = r"(() => {
    const Things = Application('Things3');
    const todo = Things.toDos.byId('";

/// The part `after id` of the script that starts with `UPDATE_TODO_HEAD`.
pub const UPDATE_TODO_AFTER_ID: &'static str = r"');
    if (!todo.exists()) throw new Error('Can\'t get todo');
    ";

/// The part `tail` of the script that starts with `UPDATE_TODO_HEAD`.
pub const UPDATE_TODO_TAIL: &'static str = r"
})()";

/// Shows the project whose name stands between the two parts.
pub const PROJECT_BY_NAME_HEAD: &'static str = r"(() => {
    const Things = Application('Things3');
    const projects = Things.projects.whose({ name: ";

/// The part `tail` of the script that starts with `PROJECT_BY_NAME_HEAD`.
pub const PROJECT_BY_NAME_TAIL: &'static str = r" });
    if (projects.length === 0) throw new Error('Can\'t find project');
    const p = projects[0];

    let tags = [];
    try {
        const tagNames = p.tagNames();
        if (tagNames && tagNames.length > 0) {
            tags = tagNames.split(', ').filter(x => x.length > 0);
        }
    } catch(e) {}

    let dueDate = null;
    try {
        const d = p.dueDate();
        if (d) dueDate = d.toISOString().split('T')[0];
    } catch(e) {}

    return JSON.stringify({
        id: p.id(),
        name: p.name(),
        notes: p.notes() || '',
        status: p.status(),
        area: p.area() ? p.area().name() : null,
        tags: tags,
        dueDate: dueDate,
        creationDate: p.creationDate() ? p.creationDate().toISOString() : null
    });
})()";

/// Lists the to-dos of the project whose name stands between the two parts.
pub const PROJECT_TODOS_HEAD: &'static str = r"(() => {
    const Things = Application('Things3');
    const projects = Things.projects.whose({ name: ";

/// The part `tail` of the script that starts with `PROJECT_TODOS_HEAD`.
pub const PROJECT_TODOS_TAIL: &'static str = r" });
    if (projects.length === 0) throw new Error('Can\'t find project');
    const project = projects[0];
    const todos = project.toDos();

    return JSON.stringify(todos.map(t => {
        let tags = [];
        try {
            const tagNames = t.tagNames();
            if (tagNames && tagNames.length > 0) {
                tags = tagNames.split(', ').filter(x => x.length > 0);
            }
        } catch(e) {}

        let dueDate = null;
        try {
            const d = t.dueDate();
            if (d) dueDate = d.toISOString().split('T')[0];
        } catch(e) {}

        // Get checklist items (sub-todos)
        let checklistItems = [];
        try {
            const items = t.toDoS();
            if (items && items.length > 0) {
                checklistItems = items.map(i => ({
                    name: i.name(),
                    completed: i.status() === 'completed'
                }));
            }
        } catch(e) {}

        return {
            id: t.id(),
            name: t.name(),
            notes: t.notes() || '',
            status: t.status(),
            dueDate: dueDate,
            tags: tags,
            project: project.name(),
            area: t.area() ? t.area().name() : null,
            checklistItems: checklistItems,
            creationDate: t.creationDate() ? t.creationDate().toISOString() : null,
            modificationDate: t.modificationDate() ? t.modificationDate().toISOString() : null
        };
    }));
})()";

/// Lists the headings of the project whose name stands between the two parts.
pub const PROJECT_HEADINGS_HEAD: &'static str = r"(() => {
    const Things = Application('Things3');
    const projects = Things.projects.whose({ name: ";

/// The part `tail` of the script that starts with `PROJECT_HEADINGS_HEAD`.
pub const PROJECT_HEADINGS_TAIL: &'static str = r" });
    if (projects.length === 0) throw new Error('Can\'t find project');
    const project = projects[0];

    // Get all headings
    const headings = [];
    try {
        const projectHeadings = project.headings();
        for (const h of projectHeadings) {
            const todos = h.toDos().map(t => t.name());
            headings.push({
                name: h.name(),
                todos: todos
            });
        }
    } catch(e) {}

    return JSON.stringify(headings);
})()";

/// Adds a heading to a project.
pub const ADD_HEADING_HEAD: &'static str = r"(() => {
    const Things = Application('Things3');
    const project = Things.projects.byId('";

/// The part `after id` of the script that starts with `ADD_HEADING_HEAD`.
pub const ADD_HEADING_AFTER_ID: &'static str = r"');
    if (!project.exists()) throw new Error('Can\'t find project');
    Things.make({ new: 'heading', withProperties: { name: ";

/// The part `tail` of the script that starts with `ADD_HEADING_HEAD`.
pub const ADD_HEADING_TAIL: &'static str = r" }, at: project });
})()";

/// Adds a to-do to a project.
pub const ADD_PROJECT_TODO_HEAD: &'static str = r"(() => {
    const Things = Application('Things3');
    const project = Things.projects.byId('";

/// The part `after id` of the script that starts with `ADD_PROJECT_TODO_HEAD`.
pub const ADD_PROJECT_TODO_AFTER_ID: &'static str = r"');
    if (!project.exists()) throw new Error('Can\'t find project');
    const props = { name: ";

/// The part `tail` of the script that starts with `ADD_PROJECT_TODO_HEAD`.
pub const ADD_PROJECT_TODO_TAIL: &'static str = r"
    Things.make({ new: 'toDo', withProperties: props, at: project });
})()";

/// Adds a to-do under a heading of a project.
pub const ADD_HEADING_TODO_HEAD: &'static str = r"(() => {
    const Things = Application('Things3');
    const project = Things.projects.byId('";

/// The part `after id` of the script that starts with `ADD_HEADING_TODO_HEAD`.
pub const ADD_HEADING_TODO_AFTER_ID: &'static str = r"');
    if (!project.exists()) throw new Error('Can\'t find project');

    // Find the heading
    const headings = project.headings.whose({ name: ";

/// The part `after heading` of the script that starts with `ADD_HEADING_TODO_HEAD`.
pub const ADD_HEADING_TODO_AFTER_HEADING: &'static str = r" });
    if (headings.length === 0) throw new Error('Can\'t find heading');
    const heading = headings[0];

    const props = { name: ";

/// The part `tail` of the script that starts with `ADD_HEADING_TODO_HEAD`.
pub const ADD_HEADING_TODO_TAIL: &'static str = r"
    Things.make({ new: 'toDo', withProperties: props, at: heading });
})()";

/// Lists all to-dos.
pub const ALL_TODOS: &'static str = r"(() => {
    const Things = Application('Things3');
    const todos = Things.toDos();
    return JSON.stringify(todos.map(t => {
        let tags = [];
        try {
            const tagNames = t.tagNames();
            if (tagNames && tagNames.length > 0) {
                tags = tagNames.split(', ').filter(x => x.length > 0);
            }
        } catch(e) {}

        let dueDate = null;
        try {
            const d = t.dueDate();
            if (d) dueDate = d.toISOString().split('T')[0];
        } catch(e) {}

        return {
            id: t.id(),
            name: t.name(),
            notes: t.notes() || '',
            status: t.status(),
            dueDate: dueDate,
            tags: tags,
            project: t.project() ? t.project().name() : null,
            area: t.area() ? t.area().name() : null,
            checklistItems: [],
            creationDate: t.creationDate() ? t.creationDate().toISOString() : null,
            modificationDate: t.modificationDate() ? t.modificationDate().toISOString() : null
        };
    }));
})()";

/// Completes the to-dos whose identifiers stand between the two parts.
pub const COMPLETE_BATCH_HEAD: &'static str = r"(() => {
    const Things = Application('Things3');
    const ids = ";

/// The part `tail` of the script that starts with `COMPLETE_BATCH_HEAD`.
pub const COMPLETE_BATCH_TAIL: &'static str = r";
    let succeeded = 0;
    let failed = 0;
    const errors = [];

    for (const id of ids) {
        try {
            const todo = Things.toDos.byId(id);
            if (todo.exists()) {
                todo.status = 'completed';
                succeeded++;
            } else {
                failed++;
                errors.push({ id: id, error: 'Not found' });
            }
        } catch (e) {
            failed++;
            errors.push({ id: id, error: e.message });
        }
    }

    return JSON.stringify({ succeeded, failed, errors });
})()";

/// Cancels the to-dos whose identifiers stand between the two parts.
pub const CANCEL_BATCH_HEAD: &'static str = r"(() => {
    const Things = Application('Things3');
    const ids = ";

/// The part `tail` of the script that starts with `CANCEL_BATCH_HEAD`.
pub const CANCEL_BATCH_TAIL: &'static str = r";
    let succeeded = 0;
    let failed = 0;
    const errors = [];

    for (const id of ids) {
        try {
            const todo = Things.toDos.byId(id);
            if (todo.exists()) {
                todo.status = 'canceled';
                succeeded++;
            } else {
                failed++;
                errors.push({ id: id, error: 'Not found' });
            }
        } catch (e) {
            failed++;
            errors.push({ id: id, error: e.message });
        }
    }

    return JSON.stringify({ succeeded, failed, errors });
})()";

/// Adds tags to many to-dos.
pub const TAG_BATCH_HEAD: &'static str = r"(() => {
    const Things = Application('Things3');
    const ids = ";

/// The part `after ids` of the script that starts with `TAG_BATCH_HEAD`.
pub const TAG_BATCH_AFTER_IDS: &'static str = r";
    const newTags = ";

/// The part `tail` of the script that starts with `TAG_BATCH_HEAD`.
pub const TAG_BATCH_TAIL: &'static str = r";
    let succeeded = 0;
    let failed = 0;
    const errors = [];

    for (const id of ids) {
        try {
            const todo = Things.toDos.byId(id);
            if (todo.exists()) {
                const currentTags = todo.tagNames() || '';
                todo.tagNames = currentTags ? currentTags + ', ' + newTags : newTags;
                succeeded++;
            } else {
                failed++;
                errors.push({ id: id, error: 'Not found' });
            }
        } catch (e) {
            failed++;
            errors.push({ id: id, error: e.message });
        }
    }

    return JSON.stringify({ succeeded, failed, errors });
})()";

/// Moves many to-dos to a project.
pub const MOVE_BATCH_HEAD: &'static str = r"(() => {
    const Things = Application('Things3');
    const ids = ";

/// The part `after ids` of the script that starts with `MOVE_BATCH_HEAD`.
pub const MOVE_BATCH_AFTER_IDS: &'static str = r";
    let succeeded = 0;
    let failed = 0;
    const errors = [];

    // Find target project
    const projects = Things.projects.whose({ name: ";

/// The part `tail` of the script that starts with `MOVE_BATCH_HEAD`.
pub const MOVE_BATCH_TAIL: &'static str = r" });
    if (projects.length === 0) {
        return JSON.stringify({ succeeded: 0, failed: ids.length, errors: [{ id: 'all', error: 'Project not found' }] });
    }
    const targetProject = projects[0];

    for (const id of ids) {
        try {
            const todo = Things.toDos.byId(id);
            if (todo.exists()) {
                Things.move(todo, { to: targetProject });
                succeeded++;
            } else {
                failed++;
                errors.push({ id: id, error: 'Not found' });
            }
        } catch (e) {
            failed++;
            errors.push({ id: id, error: e.message });
        }
    }

    return JSON.stringify({ succeeded, failed, errors });
})()";

/// Sets the due date of many to-dos.
pub const DUE_BATCH_HEAD: &'static str = r"(() => {
    const Things = Application('Things3');
    const ids = ";

/// The part `after ids` of the script that starts with `DUE_BATCH_HEAD`.
pub const DUE_BATCH_AFTER_IDS: &'static str = r";
    const dueDate = new Date('";

/// The part `tail` of the script that starts with `DUE_BATCH_HEAD`.
pub const DUE_BATCH_TAIL: &'static str = r"');
    let succeeded = 0;
    let failed = 0;
    const errors = [];

    for (const id of ids) {
        try {
            const todo = Things.toDos.byId(id);
            if (todo.exists()) {
                todo.dueDate = dueDate;
                succeeded++;
            } else {
                failed++;
                errors.push({ id: id, error: 'Not found' });
            }
        } catch (e) {
            failed++;
            errors.push({ id: id, error: e.message });
        }
    }

    return JSON.stringify({ succeeded, failed, errors });
})()";

/// Clears the due date of the to-dos whose identifiers stand between the two parts.
pub const CLEAR_DUE_BATCH_HEAD: &'static str = r"(() => {
    const Things = Application('Things3');
    const ids = ";

/// The part `tail` of the script that starts with `CLEAR_DUE_BATCH_HEAD`.
pub const CLEAR_DUE_BATCH_TAIL: &'static str = r";
    let succeeded = 0;
    let failed = 0;
    const errors = [];

    for (const id of ids) {
        try {
            const todo = Things.toDos.byId(id);
            if (todo.exists()) {
                todo.dueDate = null;
                succeeded++;
            } else {
                failed++;
                errors.push({ id: id, error: 'Not found' });
            }
        } catch (e) {
            failed++;
            errors.push({ id: id, error: e.message });
        }
    }

    return JSON.stringify({ succeeded, failed, errors });
})()";

/// Lists the to-dos of every built-in list; of the logbook, the 500 most recent.
pub const ALL_LISTS: &'static str = r"(() => {
    const Things = Application('Things3');

    function mapTodo(t) {
        let tags = [];
        try {
            const tagNames = t.tagNames();
            if (tagNames && tagNames.length > 0) {
                tags = tagNames.split(', ').filter(x => x.length > 0);
            }
        } catch(e) {}

        let dueDate = null;
        try {
            const d = t.dueDate();
            if (d) dueDate = d.toISOString().split('T')[0];
        } catch(e) {}

        return {
            id: t.id(),
            name: t.name(),
            notes: t.notes() || '',
            status: t.status(),
            dueDate: dueDate,
            tags: tags,
            project: t.project() ? t.project().name() : null,
            area: t.area() ? t.area().name() : null,
            checklistItems: [],
            creationDate: t.creationDate() ? t.creationDate().toISOString() : null,
            modificationDate: t.modificationDate() ? t.modificationDate().toISOString() : null
        };
    }

    const result = {
        inbox: [],
        today: [],
        upcoming: [],
        anytime: [],
        someday: [],
        logbook: []
    };

    // Fetch regular lists (these are typically small)
    const regularLists = ['Inbox', 'Today', 'Upcoming', 'Anytime', 'Someday'];
    for (const listName of regularLists) {
        try {
            const list = Things.lists.byName(listName);
            const todos = list.toDos();
            result[listName.toLowerCase()] = todos.map(mapTodo);
        } catch(e) {}
    }

    // Fetch Logbook with a limit for performance
    // The Logbook is sorted with most recent first, so we get the 500 most recent
    try {
        const logbook = Things.lists.byName('Logbook');
        const todos = logbook.toDos();
        const limit = Math.min(todos.length, 500);
        const recentTodos = [];
        for (let i = 0; i < limit; i++) {
            recentTodos.push(mapTodo(todos[i]));
        }
        result.logbook = recentTodos;
    } catch(e) {}

    return JSON.stringify(result);
})()";

/// Lists the to-dos of the built-in lists that hold open items.
pub const OPEN_LISTS: &'static str = r"(() => {
    const Things = Application('Things3');

    function mapTodo(t) {
        let tags = [];
        try {
            const tagNames = t.tagNames();
            if (tagNames && tagNames.length > 0) {
                tags = tagNames.split(', ').filter(x => x.length > 0);
            }
        } catch(e) {}

        let dueDate = null;
        try {
            const d = t.dueDate();
            if (d) dueDate = d.toISOString().split('T')[0];
        } catch(e) {}

        return {
            id: t.id(),
            name: t.name(),
            notes: t.notes() || '',
            status: t.status(),
            dueDate: dueDate,
            tags: tags,
            project: t.project() ? t.project().name() : null,
            area: t.area() ? t.area().name() : null,
            checklistItems: [],
            creationDate: t.creationDate() ? t.creationDate().toISOString() : null,
            modificationDate: t.modificationDate() ? t.modificationDate().toISOString() : null
        };
    }

    const result = {
        inbox: [],
        today: [],
        upcoming: [],
        anytime: [],
        someday: []
    };

    const lists = ['Inbox', 'Today', 'Upcoming', 'Anytime', 'Someday'];
    for (const listName of lists) {
        try {
            const list = Things.lists.byName(listName);
            const todos = list.toDos();
            result[listName.toLowerCase()] = todos.map(mapTodo);
        } catch(e) {}
    }

    return JSON.stringify(result);
})()";

} // verus!
