use pawl::model::task::{TaskDefinition, TaskParseError};

#[test]
fn test_parse_frontmatter() {
    let content = r#"---
name: auth
depends:
  - database
  - config
---

## Task description

This is the task body.
"#;

    let task = TaskDefinition::parse(content, "default").unwrap();
    assert_eq!(task.name, "auth");
    assert_eq!(task.depends, vec!["database", "config"]);
    assert!(task.skip.is_empty());
    assert!(task.description.contains("Task description"));
}

#[test]
fn test_parse_no_frontmatter() {
    let content = "# Just a markdown file\n\nNo frontmatter here.";
    let task = TaskDefinition::parse(content, "myfile").unwrap();
    assert_eq!(task.name, "myfile");
    assert!(task.depends.is_empty());
    assert!(task.skip.is_empty());
}

#[test]
fn test_parse_inline_depends() {
    let content = r#"---
name: test
depends: [a, b, c]
---
Body
"#;
    let task = TaskDefinition::parse(content, "default").unwrap();
    assert_eq!(task.depends, vec!["a", "b", "c"]);
}

#[test]
fn test_parse_skip() {
    let content = r#"---
name: hotfix
skip:
  - setup
  - cleanup
---
Quick fix task
"#;
    let task = TaskDefinition::parse(content, "default").unwrap();
    assert_eq!(task.name, "hotfix");
    assert_eq!(task.skip, vec!["setup", "cleanup"]);
}

#[test]
fn test_parse_skip_inline() {
    let content = r#"---
name: hotfix
skip: [setup, cleanup]
---
Body
"#;
    let task = TaskDefinition::parse(content, "default").unwrap();
    assert_eq!(task.skip, vec!["setup", "cleanup"]);
}

#[test]
fn parse_unclosed_frontmatter_is_an_error() {
    let content = "---\nname: x\n";
    let err = TaskDefinition::parse(content, "d").unwrap_err();
    assert_eq!(err, TaskParseError::UnclosedFrontmatter);
    assert_eq!(err.message(), "Unclosed frontmatter: missing closing ---");
}

#[test]
fn parse_ignores_comments_unknown_keys_and_crlf() {
    let content = "\n  ---\r\n# comment\r\nname: x\r\nowner: me\r\ndepends:\r\n- a\r\n\t- b\r\nskip: []\r\n---\r\n\r\nbody text\r\n";
    let task = TaskDefinition::parse(content, "d").unwrap();
    assert_eq!(task.name, "x");
    assert_eq!(task.depends, vec!["a", "b"]);
    assert!(task.skip.is_empty());
    assert_eq!(task.description, "body text\r\n");
}

#[test]
fn parse_items_outside_a_list_are_dropped() {
    let content = "---\n- stray\nname: n\n  - also stray\n---\nB";
    let task = TaskDefinition::parse(content, "d").unwrap();
    assert_eq!(task.name, "n");
    assert!(task.depends.is_empty());
    assert!(task.skip.is_empty());
    assert_eq!(task.description, "B");
}
