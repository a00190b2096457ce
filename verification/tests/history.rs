use legend_shot::history::{EditHistory, HISTORY_LIMIT};

/// A small editor: the marks placed so far and the next marker number.
#[derive(Clone, Debug, PartialEq)]
struct Editor {
    marks: Vec<i32>,
    number: Option<i32>,
}

impl Editor {
    fn new() -> Self {
        Editor { marks: Vec::new(), number: None }
    }

    fn begin(&self, history: &mut EditHistory<Editor>) {
        history.begin(self.clone());
    }

    fn commit(&self, history: &mut EditHistory<Editor>) {
        let changed = history.pending().is_some_and(|before| before != self);
        history.commit(changed);
    }

    fn undo(&mut self, history: &mut EditHistory<Editor>) {
        if let Some(state) = history.undo(self.clone()) {
            *self = state;
        }
    }

    fn redo(&mut self, history: &mut EditHistory<Editor>) {
        if let Some(state) = history.redo(self.clone()) {
            *self = state;
        }
    }
}

#[test]
fn undo_and_redo_restore_annotation_and_next_number() {
    let mut history = EditHistory::new();
    let mut editor = Editor::new();
    editor.begin(&mut history);
    editor.marks.push(1);
    editor.number = Some(1);
    editor.commit(&mut history);
    editor.undo(&mut history);
    assert!(editor.marks.is_empty());
    assert_eq!(editor.number, None);
    editor.redo(&mut history);
    assert_eq!(editor.marks.len(), 1);
    assert_eq!(editor.marks[0], 1);
    assert_eq!(editor.number, Some(1));
}

#[test]
fn new_edit_invalidates_redo_but_noop_does_not() {
    let mut history = EditHistory::new();
    let mut editor = Editor::new();
    editor.begin(&mut history);
    editor.marks.push(1);
    editor.commit(&mut history);
    editor.undo(&mut history);
    editor.begin(&mut history);
    editor.commit(&mut history);
    assert!(history.can_redo());
    editor.begin(&mut history);
    editor.marks.push(2);
    editor.commit(&mut history);
    assert!(!history.can_redo());
    editor.redo(&mut history);
    assert_eq!(editor.marks[0], 2);
}

#[test]
fn drag_is_one_history_action_and_restores_selection_endpoints() {
    let mut history = EditHistory::new();
    let mut editor = Editor { marks: vec![-50], number: None };
    editor.begin(&mut history);
    editor.marks[0] = -45;
    editor.begin(&mut history);
    editor.marks[0] = -40;
    editor.commit(&mut history);
    editor.undo(&mut history);
    assert_eq!(editor.marks, vec![-50]);
    assert!(!history.can_undo());
}

#[test]
fn cancelling_unfinished_mark_restores_number_without_consuming_undo() {
    let mut history = EditHistory::new();
    let mut editor = Editor::new();
    editor.begin(&mut history);
    editor.marks.push(1);
    editor.number = Some(1);
    editor.commit(&mut history);
    editor.begin(&mut history);
    editor.number = Some(2);
    editor.undo(&mut history);
    assert_eq!(editor.marks.len(), 1);
    assert_eq!(editor.number, Some(1));
    assert!(history.can_undo());
}

#[test]
fn capture_reset_cannot_restore_edits_from_previous_screenshot() {
    let mut history = EditHistory::new();
    let mut editor = Editor::new();
    editor.begin(&mut history);
    editor.marks.push(1);
    editor.commit(&mut history);
    history = EditHistory::default();
    editor = Editor::new();
    assert!(!history.can_undo());
    editor.undo(&mut history);
    assert!(editor.marks.is_empty());
}

#[test]
fn history_evicts_oldest_actions_without_copying_capture_pixels() {
    let mut history = EditHistory::new();
    let mut editor = Editor::new();
    for i in 1..=105 {
        editor.begin(&mut history);
        editor.number = Some(i);
        editor.commit(&mut history);
    }
    for _ in 0..100 {
        editor.undo(&mut history);
    }
    assert_eq!(editor.number, Some(5));
    assert!(!history.can_undo());
    assert_eq!(HISTORY_LIMIT, 100);
}

#[test]
fn redo_is_refused_during_an_unfinished_edit() {
    let mut history = EditHistory::new();
    let mut editor = Editor::new();
    editor.begin(&mut history);
    editor.marks.push(1);
    editor.commit(&mut history);
    editor.undo(&mut history);
    editor.begin(&mut history);
    assert!(!history.can_redo());
    assert_eq!(history.redo(editor.clone()), None);
    assert_eq!(history.cancel(), Some(Editor::new()));
    assert!(history.can_redo());
}
