//! Classification of filesystem change batches.
//!
//! The watcher's poll loop collects the raw events of one debounce window
//! into a batch and hands it here.  Pure access notifications are ignored;
//! any other event means "something changed"; and if a changed path carries
//! the template-source extension the whole batch also calls for template
//! recompilation.

use vstd::prelude::*;

use crate::render::{rsplit2, rsplit_spec, str_eq};

verus! {

/// The shape of one raw filesystem notification, as the platform watcher
/// reports it.
pub enum EventKind {
    Access,
    Create,
    Modify,
    Remove,
    Any,
    Other,
}

/// One raw filesystem notification: its kind and the paths it touched.
pub struct FsEvent {
    pub kind: EventKind,
    pub paths: Vec<String>,
}

/// The extension that marks a file as a template source.
pub open spec fn template_ext() -> Seq<char> {
    seq!['h', 'b', 's']
}

/// Whether a path names a template source: its final component has a
/// non-empty stem and the template-source extension.
pub open spec fn is_template_path(p: Seq<char>) -> bool {
    let file = match rsplit_spec(p, '/') {
        Some(s) => s.1,
        None => p,
    };
    match rsplit_spec(file, '.') {
        Some(s) => s.0.len() > 0 && s.1 == template_ext(),
        None => false,
    }
}

/// An event counts as a change; pure access notifications and unclassified
/// "other" events do not.
pub open spec fn relevant(e: FsEvent) -> bool {
    !(e.kind is Access || e.kind is Other)
}

/// Whether an event touched at least one template-source path.
pub open spec fn touches_template(e: FsEvent) -> bool {
    exists|i: int| 0 <= i < e.paths@.len() && is_template_path(e.paths@[i]@)
}

/// Whether a batch changed anything at all.
pub open spec fn any_modified(batch: Seq<FsEvent>) -> bool {
    exists|i: int| 0 <= i < batch.len() && relevant(batch[i])
}

/// Whether a batch calls for template recompilation: some real change
/// touched a template source.
pub open spec fn template_affecting(batch: Seq<FsEvent>) -> bool {
    exists|i: int| 0 <= i < batch.len() && relevant(batch[i]) && touches_template(batch[i])
}

/// Whether `path` names a template source file.
pub fn has_template_extension(path: &str) -> (r: bool)
    ensures
        r == is_template_path(path@),
{
    let file = match rsplit2(path, '/') {
        Some(p) => p.1,
        None => path,
    };
    match rsplit2(file, '.') {
        Some(p) => {
            proof {
                reveal_strlit("hbs");
                assert("hbs"@ =~= template_ext());
            }
            !p.0.is_empty() && str_eq(p.1, "hbs")
        },
        None => false,
    }
}

/// Whether one event counts as a change.
fn event_relevant(e: &FsEvent) -> (r: bool)
    ensures
        r == relevant(*e),
{
    match e.kind {
        EventKind::Access => false,
        EventKind::Other => false,
        _ => true,
    }
}

/// Whether one event touched a template-source path.
fn event_touches_template(e: &FsEvent) -> (r: bool)
    ensures
        r == touches_template(*e),
{
    let n = e.paths.len();
    let mut i: usize = 0;
    while i < n
        invariant
            i <= n,
            n == e.paths@.len(),
            forall|j: int| 0 <= j < i ==> !is_template_path(e.paths@[j]@),
        decreases n - i,
    {
        if has_template_extension(e.paths[i].as_str()) {
            return true;
        }
        i = i + 1;
    }
    false
}

/// Classifies one debounced batch: whether anything changed at all, and
/// whether a change touched a template source.
pub fn classify_batch(events: &Vec<FsEvent>) -> (r: (bool, bool))
    ensures
        r.0 == any_modified(events@),
        r.1 == template_affecting(events@),
{
    let n = events.len();
    let mut any = false;
    let mut tpl = false;
    let mut i: usize = 0;
    while i < n
        invariant
            i <= n,
            n == events@.len(),
            any == exists|j: int| 0 <= j < i && relevant(events@[j]),
            tpl == exists|j: int|
                0 <= j < i && relevant(events@[j]) && touches_template(events@[j]),
        decreases n - i,
    {
        if event_relevant(&events[i]) {
            any = true;
            if event_touches_template(&events[i]) {
                tpl = true;
            }
        }
        i = i + 1;
    }
    (any, tpl)
}

} // verus!
