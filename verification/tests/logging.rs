use debug_log::{Filter, LevelTracker, Logger};
use debug_log::{contains_substring, group_close_text, group_open_text, indent_string, message_text, render_block, value_text};

/// An exercise run of nested groups and dumps with no filter configured:
/// nothing may be emitted and the depth must unwind to zero.
#[test]
fn it_works() {
    let mut logger = Logger::new();

    let (guard_a, line_a) = logger.group_open("src/lib.rs:310", "A Group");
    let (guard_c, line_c) = logger.group_open("src/lib.rs:311", "C Group");
    assert!(line_a.is_none());
    assert!(line_c.is_none());
    {
        let (guard_sub_a, line) = logger.group_open("src/lib.rs:313", "Sub A Group");
        assert!(line.is_none());
        let arr: Vec<_> = (0..3).collect();
        let repr = format!("{:#?}", &arr);
        assert!(logger.log_value("src/lib.rs:315", "&arr", &repr).is_none());
        {
            let (guard_sub_sub_a, line) = logger.group_open("src/lib.rs:317", "Sub Sub A Group");
            assert!(line.is_none());
            assert!(logger.log_value("src/lib.rs:318", "&arr", &repr).is_none());
            assert!(logger.group_close(guard_sub_sub_a).is_none());
        }
        assert!(logger.log_message("src/lib.rs:320", "Hi").is_none());
        assert!(logger.log_value("src/lib.rs:321", "&arr", &repr).is_none());
        assert!(logger.group_close(guard_sub_a).is_none());
    }

    {
        let (guard_b, line) = logger.group_open("src/lib.rs:325", "B Group");
        assert!(line.is_none());
        assert!(logger.log_message("src/lib.rs:326", "END").is_none());
        assert!(logger.group_close(guard_b).is_none());
    }

    assert!(logger.group_close(guard_c).is_none());
    assert!(logger.group_close(guard_a).is_none());
    assert_eq!(logger.get_level(), 0);
}

/// Filter `"*"`: two nested groups around one message give exactly the
/// bracketed, indented block.
#[test]
fn wildcard_nested_groups() {
    let mut logger = Logger::new();
    logger.set_debug("*");
    let mut lines: Vec<String> = Vec::new();

    let (guard_a, line) = logger.group_open("loc", "A");
    lines.push(line.unwrap());
    let (guard_b, line) = logger.group_open("loc", "B");
    lines.push(line.unwrap());
    lines.push(logger.log_message("loc", "x").unwrap());
    lines.push(logger.group_close(guard_b).unwrap());
    lines.push(logger.group_close(guard_a).unwrap());

    assert_eq!(
        lines,
        vec![
            "A {".to_string(),
            "    B {".to_string(),
            "        [loc] x".to_string(),
            "    }".to_string(),
            "}".to_string(),
        ]
    );
    assert_eq!(logger.get_level(), 0);
}

/// Filter absent: a group and a message produce no output at all, and the
/// depth after the scope is zero.
#[test]
fn absent_filter_suppresses_everything() {
    let mut logger = Logger::new();
    let (guard, line) = logger.group_open("src/main.rs:1", "A");
    assert!(line.is_none());
    assert!(logger.log_message("src/main.rs:2", "x").is_none());
    assert!(logger.group_close(guard).is_none());
    assert_eq!(logger.get_level(), 0);
}

/// Filter `"mod1"`: of two call sites, only the one whose location tag
/// contains the filter value produces output.
#[test]
fn substring_filter_selects_call_sites() {
    let mut logger = Logger::new();
    logger.set_debug("mod1");
    let first = logger.log_message("mod1/file.ext:10", "hello");
    let second = logger.log_message("mod2/file.ext:20", "hello");
    assert_eq!(first.unwrap(), "[mod1/file.ext:10] hello");
    assert!(second.is_none());
}

/// Disabling the filter while a group is open: the open group still closes
/// and decrements, while groups opened after disabling touch nothing.
#[test]
fn disabling_filter_keeps_bookkeeping() {
    let mut logger = Logger::new();
    logger.set_debug("*");
    let (guard_a, line) = logger.group_open("loc", "A");
    assert_eq!(line.unwrap(), "A {");
    assert_eq!(logger.get_level(), 1);

    logger.set_debug("");
    let (guard_b, line) = logger.group_open("loc", "B");
    assert!(line.is_none());
    assert_eq!(logger.get_level(), 1);
    assert!(logger.group_close(guard_b).is_none());
    assert_eq!(logger.get_level(), 1);

    assert_eq!(logger.group_close(guard_a).unwrap(), "}");
    assert_eq!(logger.get_level(), 0);
}

#[test]
fn empty_filter_disables() {
    let mut logger = Logger::new();
    logger.set_debug("");
    assert!(!logger.should_log("anything"));
    assert!(logger.log_message("anything", "x").is_none());
}

#[test]
fn wildcard_enables_every_location() {
    let mut logger = Logger::new();
    logger.set_debug("*");
    assert!(logger.should_log(""));
    assert!(logger.should_log("src/lib.rs:1"));
    assert!(logger.should_log("anything at all"));
}

#[test]
fn filter_is_replaceable_at_runtime() {
    let mut filter = Filter::new();
    assert!(!filter.is_enabled("src/lib.rs:1"));
    filter.set("lib");
    assert!(filter.is_enabled("src/lib.rs:1"));
    assert!(!filter.is_enabled("src/main.rs:1"));
    filter.set("main");
    assert!(!filter.is_enabled("src/lib.rs:1"));
    assert!(filter.is_enabled("src/main.rs:1"));
}

#[test]
fn substring_containment() {
    assert!(contains_substring("hello world", "lo w"));
    assert!(contains_substring("hello", "hello"));
    assert!(contains_substring("hello", ""));
    assert!(contains_substring("hello", "o"));
    assert!(!contains_substring("abc", "abcd"));
    assert!(!contains_substring("hello", "world"));
}

#[test]
fn level_tracker_counts_open_groups() {
    let mut levels = LevelTracker::new();
    assert_eq!(levels.depth(), 0);
    levels.push("a");
    levels.push("b");
    assert_eq!(levels.depth(), 2);
    levels.pop();
    assert_eq!(levels.depth(), 1);
    levels.pop();
    assert_eq!(levels.depth(), 0);
    levels.pop();
    assert_eq!(levels.depth(), 0);
}

#[test]
fn closing_without_open_group_is_noop() {
    let mut logger = Logger::new();
    logger.set_debug("*");
    assert!(logger.outdent().is_none());
    assert_eq!(logger.get_level(), 0);
}

#[test]
fn indentation_grows_with_depth() {
    assert_eq!(indent_string(0), "");
    assert_eq!(indent_string(1), "    ");
    assert_eq!(indent_string(3), "            ");
}

#[test]
fn single_line_block_is_unchanged() {
    assert_eq!(render_block("single line", 3), "single line");
}

#[test]
fn multi_line_block_indents_continuation_lines() {
    assert_eq!(render_block("a\nb\nc", 1), "a\n    b\n    c");
    assert_eq!(render_block("a\n\nb", 2), "a\n        \n        b");
}

#[test]
fn block_rendering_adds_no_trailing_newline() {
    assert_eq!(render_block("a\n", 1), "a\n    ");
    assert_eq!(render_block("", 5), "");
}

#[test]
fn group_line_rendering() {
    assert_eq!(group_open_text("A Group", 0), "A Group {");
    assert_eq!(group_open_text("Sub", 2), "        Sub {");
    assert_eq!(group_close_text(0), "}");
    assert_eq!(group_close_text(1), "    }");
}

#[test]
fn message_rendering() {
    assert_eq!(message_text("src/lib.rs:150", "Hi", 2), "        [src/lib.rs:150] Hi");
    assert_eq!(message_text("loc", "", 0), "[loc] ");
    assert_eq!(message_text("loc", "l1\nl2", 1), "    [loc] l1\n    l2");
}

/// A value dump renders exactly like the multi-line debug representation
/// of a vector, re-indented to the current depth.
#[test]
fn value_dump_rendering() {
    let arr: Vec<i32> = (0..3).collect();
    let repr = format!("{:#?}", &arr);
    assert_eq!(repr, "[\n    0,\n    1,\n    2,\n]");
    assert_eq!(
        value_text("src/lib.rs:144", "&arr", &repr, 2),
        "        [src/lib.rs:144] &arr = [\n            0,\n            1,\n            2,\n        ]"
    );
}

/// The stateful entry points mirror the stateless renderers at the current
/// depth.
#[test]
fn logger_renders_at_current_depth() {
    let mut logger = Logger::new();
    logger.set_debug("*");
    let line = logger.indent("A Group");
    assert_eq!(line, "A Group {");
    assert_eq!(logger.get_level(), 1);
    assert_eq!(logger.prepend_indent("x\ny"), "x\n    y");
    assert_eq!(logger.dbg("1", "n", "src/lib.rs:9"), "    [src/lib.rs:9] n = 1");
    let value = logger.log_value("src/lib.rs:9", "n", "1");
    assert_eq!(value.unwrap(), "    [src/lib.rs:9] n = 1");
    let close = logger.outdent();
    assert_eq!(close.unwrap(), "}");
    assert_eq!(logger.get_level(), 0);
}
