//! The logging engine: the enablement filter and the nesting-level tracker
//! behind one interface, together with the group mechanism.
//!
//! Every operation that produces output returns the rendered line as a
//! `String` instead of writing it anywhere: the engine is pure, and the
//! surrounding layer hands each returned line to whatever sink the execution
//! environment provides. Operations that the filter denies return no line
//! and leave the engine untouched.

use vstd::prelude::*;

use crate::filter::{enabled, Filter};
use crate::format::{
    group_close_line, group_close_text, group_open_line, group_open_text, message_line,
    message_text, reindent, render_block, value_line, value_text,
};
use crate::level::{close_levels, open_levels, LevelTracker};

verus! {

/// The mathematical state of the engine: the filter value and the stack of
/// open-group labels.
pub struct LoggerModel {
    pub filter: Option<Seq<char>>,
    pub levels: Seq<Seq<char>>,
}

/// The logging engine. One instance is meant to be shared process-wide,
/// behind whatever mutual exclusion the host needs.
pub struct Logger {
    filter: Filter,
    levels: LevelTracker,
}

/// The token a group open hands back. An active guard records that the
/// group really opened (the filter permitted it) and owes exactly one
/// close; an inert guard records that the open was a no-op, and closing it
/// is a no-op too.
pub struct GroupGuard {
    active: bool,
}

impl GroupGuard {
    /// Whether this guard belongs to a group that really opened.
    pub closed spec fn is_active(&self) -> bool {
        self.active
    }
}

impl View for Logger {
    type V = LoggerModel;

    closed spec fn view(&self) -> LoggerModel {
        LoggerModel { filter: self.filter@, levels: self.levels@ }
    }
}

impl Logger {
    /// An engine with no filter configured (everything disabled) and no
    /// group open.
    pub fn new() -> (r: Logger)
        ensures
            r@.filter == Option::<Seq<char>>::None,
            r@.levels == Seq::<Seq<char>>::empty(),
    {
        Logger { filter: Filter::new(), levels: LevelTracker::new() }
    }

    /// Replace the filter value at runtime, leaving every open group's
    /// bookkeeping untouched.
    pub fn set_debug(&mut self, s: &str)
        ensures
            final(self)@.filter == Option::Some(s@),
            final(self)@.levels == old(self)@.levels,
    {
        self.filter.set(s);
    }

    /// Whether the call site tagged `file` is enabled under the current
    /// filter value: false when the value is absent or empty, true for
    /// every call site when it is `"*"`, and otherwise true iff the tag
    /// contains the value as a substring.
    pub fn should_log(&self, file: &str) -> (r: bool)
        ensures
            r == enabled(self@.filter, file@),
    {
        self.filter.is_enabled(file)
    }

    /// The current nesting depth: the number of currently open groups.
    pub fn get_level(&self) -> (r: usize)
        ensures
            r == self@.levels.len(),
    {
        self.levels.depth()
    }

    /// Open a group unconditionally: record the label and return the
    /// opening line, rendered at the depth in effect before the open.
    pub fn indent(&mut self, name: &str) -> (line: String)
        ensures
            final(self)@.filter == old(self)@.filter,
            final(self)@.levels == open_levels(old(self)@.levels, name@),
            line@ == group_open_line(name@, old(self)@.levels.len()),
    {
        let line = group_open_text(name, self.levels.depth());
        self.levels.push(name);
        line
    }

    /// Close the most recently opened group and return the closing line,
    /// rendered at the depth in effect after the close. Closing with no
    /// group open is a no-op that returns no line.
    pub fn outdent(&mut self) -> (line: Option<String>)
        ensures
            final(self)@.filter == old(self)@.filter,
            final(self)@.levels == close_levels(old(self)@.levels),
            old(self)@.levels.len() == 0 ==> line is None,
            old(self)@.levels.len() > 0 ==> (line matches Some(l) && l@ == group_close_line(
                (old(self)@.levels.len() - 1) as nat,
            )),
    {
        if self.levels.depth() == 0 {
            None
        } else {
            self.levels.pop();
            Some(group_close_text(self.levels.depth()))
        }
    }

    /// Re-indent a (possibly multi-line) rendered value to the current
    /// depth: every line after the first gains the depth's indentation.
    pub fn prepend_indent(&self, s: &str) -> (r: String)
        ensures
            r@ == reindent(s@, self@.levels.len()),
    {
        render_block(s, self.levels.depth())
    }

    /// Render a value dump line at the current depth: the `[location]`
    /// tag, the dumped expression's source text, ` = `, and the value's
    /// representation re-indented as a block.
    pub fn dbg(&self, value_repr: &str, name: &str, location: &str) -> (line: String)
        ensures
            line@ == value_line(location@, name@, value_repr@, self@.levels.len()),
    {
        value_text(location, name, value_repr, self.levels.depth())
    }

    /// A free-form message from the call site tagged `location`: the
    /// rendered line if the filter enables that call site, nothing
    /// otherwise.
    pub fn log_message(&self, location: &str, text: &str) -> (line: Option<String>)
        ensures
            enabled(self@.filter, location@) ==> (line matches Some(l) && l@ == message_line(
                location@,
                text@,
                self@.levels.len(),
            )),
            !enabled(self@.filter, location@) ==> line is None,
    {
        if self.should_log(location) {
            Some(message_text(location, text, self.levels.depth()))
        } else {
            None
        }
    }

    /// A value dump from the call site tagged `location`: the rendered
    /// line if the filter enables that call site, nothing otherwise.
    pub fn log_value(&self, location: &str, name: &str, value_repr: &str) -> (line: Option<
        String,
    >)
        ensures
            enabled(self@.filter, location@) ==> (line matches Some(l) && l@ == value_line(
                location@,
                name@,
                value_repr@,
                self@.levels.len(),
            )),
            !enabled(self@.filter, location@) ==> line is None,
    {
        if self.should_log(location) {
            Some(self.dbg(value_repr, name, location))
        } else {
            None
        }
    }

    /// Open a group from the call site tagged `location`. If the filter
    /// enables the call site, the label is recorded, the opening line is
    /// returned, and the returned guard is active — it owes exactly one
    /// close. Otherwise nothing is touched, no line is produced, and the
    /// guard is inert.
    pub fn group_open(&mut self, location: &str, label: &str) -> (r: (GroupGuard, Option<String>))
        ensures
            final(self)@.filter == old(self)@.filter,
            r.0.is_active() == enabled(old(self)@.filter, location@),
            enabled(old(self)@.filter, location@) ==> (r.1 matches Some(l)
                && final(self)@.levels == open_levels(old(self)@.levels, label@)
                && l@ == group_open_line(label@, old(self)@.levels.len())),
            !enabled(old(self)@.filter, location@) ==> final(self)@.levels == old(self)@.levels
                && r.1 is None,
    {
        if self.should_log(location) {
            let line = self.indent(label);
            (GroupGuard { active: true }, Some(line))
        } else {
            (GroupGuard { active: false }, None)
        }
    }

    /// Close the group a guard belongs to — exactly once, however the
    /// guarded scope was left. An active guard pops the level stack and
    /// returns the closing line at the new depth; an inert guard does
    /// nothing. The close fires regardless of the current filter value, so
    /// a group opened while logging was enabled unwinds correctly even if
    /// the filter has been changed or disabled since.
    pub fn group_close(&mut self, guard: GroupGuard) -> (line: Option<String>)
        ensures
            final(self)@.filter == old(self)@.filter,
            guard.is_active() ==> final(self)@.levels == close_levels(old(self)@.levels),
            guard.is_active() && old(self)@.levels.len() > 0 ==> (line matches Some(l)
                && l@ == group_close_line((old(self)@.levels.len() - 1) as nat)),
            guard.is_active() && old(self)@.levels.len() == 0 ==> line is None,
            !guard.is_active() ==> final(self)@.levels == old(self)@.levels && line is None,
    {
        if guard.active {
            self.outdent()
        } else {
            None
        }
    }
}

/// Law: disabling the filter (setting it to the empty value) while groups
/// are open does not corrupt the depth bookkeeping. No call site is enabled
/// under the disabled filter, so a group opened afterwards touches no
/// shared state; and closing a group restores exactly the stack its open
/// found, independently of whatever the filter holds by then.
pub proof fn lemma_disabling_filter_preserves_depth(
    levels: Seq<Seq<char>>,
    label: Seq<char>,
    location: Seq<char>,
)
    ensures
        !enabled(Option::Some(Seq::<char>::empty()), location),
        close_levels(open_levels(levels, label)) == levels,
{
    assert(open_levels(levels, label).drop_last() =~= levels);
}

} // verus!
