use prsctx::{get_context_stack, get_context_stack_chained_string, Context, ContextStack, Mark};

fn stack_of(names: &[&str]) -> ContextStack {
    let mut stack = ContextStack::new();
    for (i, name) in names.iter().enumerate() {
        stack.push(Context::new(name, "q.rs", i as u32, "q"));
    }
    stack
}

#[test]
fn fresh_stack_is_empty() {
    let stack = ContextStack::new();
    assert!(get_context_stack(&stack).is_empty());
    assert_eq!(0, stack.len());
    assert!(stack.is_empty());
}

#[test]
fn chain_of_empty_stack_is_empty() {
    let stack = ContextStack::new();
    assert_eq!("", get_context_stack_chained_string(&stack, Some(">")));
    assert_eq!("", get_context_stack_chained_string(&stack, None));
    assert_eq!("", get_context_stack_chained_string(&stack, Some("/")));
    assert_eq!("", get_context_stack_chained_string(&stack, Some("::")));
}

#[test]
fn chain_of_three_scopes() {
    let stack = stack_of(&["root", "b1", "b2"]);
    assert_eq!(">root>b1>b2", get_context_stack_chained_string(&stack, Some(">")));
}

#[test]
fn chain_without_separator_uses_the_default() {
    let stack = stack_of(&["root", "b1", "b2"]);
    assert_eq!(">root>b1>b2", get_context_stack_chained_string(&stack, None));
}

#[test]
fn chain_with_custom_separator() {
    let stack = stack_of(&["a", "b"]);
    assert_eq!("/a/b", get_context_stack_chained_string(&stack, Some("/")));
}

#[test]
fn chain_with_long_and_empty_separators() {
    let stack = stack_of(&["a", "", "c"]);
    assert_eq!(" -> a ->  -> c", get_context_stack_chained_string(&stack, Some(" -> ")));
    assert_eq!("ac", get_context_stack_chained_string(&stack, Some("")));
    assert_eq!(">a>>c", get_context_stack_chained_string(&stack, None));
}

#[test]
fn chain_keeps_names_beyond_ascii() {
    let stack = stack_of(&["größe", "日本語"]);
    assert_eq!("→größe→日本語", get_context_stack_chained_string(&stack, Some("→")));
}

#[test]
fn push_appends_and_pop_removes_the_last() {
    let mut stack = ContextStack::new();
    stack.push(Context::new("one", "p.rs", 1, "p"));
    stack.push(Context::new("two", "p.rs", 2, "p"));
    assert_eq!(2, stack.len());
    assert!(!stack.is_empty());
    let s = get_context_stack(&stack);
    assert_eq!("one", s[0].name);
    assert_eq!("two", s[1].name);
    stack.pop();
    let s = get_context_stack(&stack);
    assert_eq!(1, s.len());
    assert_eq!("one", s[0].name);
    assert_eq!(1, s[0].line_no);
    stack.pop();
    assert!(stack.is_empty());
}

#[test]
fn snapshot_does_not_follow_the_stack() {
    let mut stack = stack_of(&["a", "b"]);
    let before = get_context_stack(&stack);
    let mark = Mark::new(&mut stack, "c", "q.rs", 9, "q");
    assert_eq!(2, before.len());
    assert_eq!(3, get_context_stack(&stack).len());
    mark.release(&mut stack);
    stack.pop();
    assert_eq!(2, before.len());
    assert_eq!("b", before[1].name);
    assert_eq!(1, get_context_stack(&stack).len());
}

#[test]
fn context_new_and_clone_keep_the_fields() {
    let ctx = Context::new("x", "f.src", 42, "mod::sub");
    let copy = ctx.clone();
    assert_eq!("x", ctx.name);
    assert_eq!("f.src", ctx.file_name);
    assert_eq!(42, ctx.line_no);
    assert_eq!("mod::sub", ctx.module_name);
    assert_eq!(ctx.name, copy.name);
    assert_eq!(ctx.file_name, copy.file_name);
    assert_eq!(ctx.line_no, copy.line_no);
    assert_eq!(ctx.module_name, copy.module_name);
}

#[test]
fn context_debug_rendering_shows_all_fields() {
    let ctx = Context::new("x", "f.src", 42, "mod::sub");
    let text = format!("{:?}", ctx);
    assert!(text.contains("\"x\""));
    assert!(text.contains("\"f.src\""));
    assert!(text.contains("42"));
    assert!(text.contains("\"mod::sub\""));
}
