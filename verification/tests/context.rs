use initrt::context::{args, check_c_string, decode_stack, ProcessContext};

fn c(s: &str) -> Vec<u8> {
    let mut v = s.as_bytes().to_vec();
    v.push(0);
    v
}

#[test]
fn decode_empty_argument_list() {
    // argc 0: the argv terminator, then an immediately absent environment.
    let stack: Vec<usize> = vec![0, 0, 0];
    let l = decode_stack(&stack).expect("well-formed");
    assert_eq!(l.argc, 0);
    assert!(l.argv.is_empty());
    assert!(l.envp.is_empty());
}

#[test]
fn decode_counts_match_argc() {
    // For each argc up to a small bound, the decoded sequence has exactly
    // argc pointers, in their original order.
    for argc in 0..8usize {
        let mut stack: Vec<usize> = vec![argc];
        for k in 0..argc {
            stack.push(0x1000 + k);
        }
        stack.push(0); // argv terminator
        stack.push(0x2000); // one environment pointer
        stack.push(0); // envp terminator
        let l = decode_stack(&stack).expect("well-formed");
        assert_eq!(l.argc, argc);
        assert_eq!(l.argv.len(), argc);
        for k in 0..argc {
            assert_eq!(l.argv[k], 0x1000 + k);
        }
        assert_eq!(l.envp, vec![0x2000]);
    }
}

#[test]
fn decode_environment_block() {
    let stack: Vec<usize> = vec![1, 0xAA, 0, 0xB1, 0xB2, 0xB3, 0];
    let l = decode_stack(&stack).expect("well-formed");
    assert_eq!(l.argc, 1);
    assert_eq!(l.argv, vec![0xAA]);
    assert_eq!(l.envp, vec![0xB1, 0xB2, 0xB3]);
}

#[test]
fn decode_rejects_missing_argv_terminator() {
    // argc says 2 but the word after the two pointers is not zero.
    let stack: Vec<usize> = vec![2, 0xAA, 0xBB, 0xCC, 0];
    assert!(decode_stack(&stack).is_none());
}

#[test]
fn decode_rejects_argc_past_the_end() {
    let stack: Vec<usize> = vec![9, 0xAA, 0];
    assert!(decode_stack(&stack).is_none());
}

#[test]
fn decode_rejects_missing_envp_terminator() {
    let stack: Vec<usize> = vec![1, 0xAA, 0, 0xB1, 0xB2];
    assert!(decode_stack(&stack).is_none());
}

#[test]
fn decode_rejects_empty_stack() {
    let stack: Vec<usize> = vec![];
    assert!(decode_stack(&stack).is_none());
    let stack1: Vec<usize> = vec![0];
    assert!(decode_stack(&stack1).is_none());
    // argc 0 with its terminator but no environment terminator at all.
    let stack2: Vec<usize> = vec![0, 0];
    assert!(decode_stack(&stack2).is_none());
}

#[test]
fn c_string_check() {
    assert!(check_c_string(&c("init")));
    assert!(check_c_string(&c("")));
    assert!(!check_c_string(&Vec::new()));
    assert!(!check_c_string(&b"no nul".to_vec()));
    assert!(!check_c_string(&b"in\0ner\0".to_vec()));
}

#[test]
fn context_keeps_order_and_count() {
    let ctx = ProcessContext::new(vec![c("a"), c("bc"), c("def")], vec![c("X=1")])
        .expect("all NUL-terminated");
    assert_eq!(ctx.argc(), 3);
    let mut it = args(&ctx);
    assert_eq!(it.len(), 3);
    assert_eq!(it.next().unwrap(), &c("a"));
    assert_eq!(it.len(), 2);
    assert_eq!(it.next().unwrap(), &c("bc"));
    assert_eq!(it.len(), 1);
    assert_eq!(it.next().unwrap(), &c("def"));
    assert_eq!(it.len(), 0);
    assert!(it.next().is_none());
    assert_eq!(it.len(), 0);
}

#[test]
fn context_of_no_arguments() {
    let ctx = ProcessContext::new(Vec::new(), Vec::new()).expect("empty is fine");
    assert_eq!(ctx.argc(), 0);
    let mut it = args(&ctx);
    assert_eq!(it.len(), 0);
    assert!(it.next().is_none());
}

#[test]
fn context_rejects_unterminated_strings() {
    assert!(ProcessContext::new(vec![b"bad".to_vec()], Vec::new()).is_none());
    assert!(ProcessContext::new(Vec::new(), vec![b"bad".to_vec()]).is_none());
    assert!(ProcessContext::new(vec![c("ok"), Vec::new()], Vec::new()).is_none());
}
