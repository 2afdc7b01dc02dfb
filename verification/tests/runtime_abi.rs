use ruxen_core::mir::lower::runtime_abi::{
    callee_ownership, is_move_by_ffi, is_static_constructor, ArgMask, ResultOwnership,
};

const MOVE_BY_FFI: &[&str] = &[
    "ruxen_executor_spawn",
    "Task_spawn_raw",
    "ruxen_thread_spawn",
    "Thread_spawn",
    "Thread_spawn_raw",
];

#[test]
fn fresh_alloc_constructors_classify_as_fresh() {
    assert_eq!(callee_ownership("Vec_new").result, ResultOwnership::Fresh);
    assert_eq!(
        callee_ownership("ruxen_hash_new").result,
        ResultOwnership::Fresh
    );
    assert_eq!(
        callee_ownership("Command_new").result,
        ResultOwnership::Fresh
    );
    assert_eq!(callee_ownership("File_open").result, ResultOwnership::Fresh);
    assert_eq!(
        callee_ownership("Mutex_lock_raw").result,
        ResultOwnership::Fresh
    );
}

#[test]
fn free_family_consumes_first_arg_and_returns_nothing() {
    let o = callee_ownership("ruxen_string_free");
    assert_eq!(o.result, ResultOwnership::Untracked);
    assert!(o.borrows_first_arg);
}

#[test]
fn vec_push_transfers_arg1() {
    assert_eq!(
        callee_ownership("ruxen_vec_push").arg_transfer,
        ArgMask::single(1)
    );
    assert_eq!(
        callee_ownership("Vec_push").arg_transfer,
        ArgMask::single(1)
    );
}

#[test]
fn hashmap_insert_transfers_arg1_and_arg2() {
    assert_eq!(
        callee_ownership("ruxen_hash_insert").arg_transfer,
        ArgMask::pair(1, 2)
    );
    assert_eq!(
        callee_ownership("HashMap_insert").arg_transfer,
        ArgMask::pair(1, 2)
    );
}

#[test]
fn move_by_ffi_does_not_borrow_args() {
    let o = callee_ownership("ruxen_executor_spawn");
    assert!(!o.args_are_borrowed);
}

#[test]
fn is_move_by_ffi_matches_table_and_rejects_dotted_and_user() {
    for &c in MOVE_BY_FFI {
        assert!(is_move_by_ffi(c), "MOVE_BY_FFI member {c:?} not recognized");
    }
    assert!(!is_move_by_ffi("Task.spawn_raw"));
    assert!(!is_move_by_ffi("MyClass_method"));
}

#[test]
fn pointer_store_transfers_arg1() {
    assert_eq!(
        callee_ownership("ruxen_store_ptr").arg_transfer,
        ArgMask::single(1)
    );
}

#[test]
fn user_callee_is_fully_conservative() {
    let o = callee_ownership("MyClass_method");
    assert_eq!(o.result, ResultOwnership::Untracked);
    assert!(!o.args_are_borrowed);
    assert!(!o.borrows_first_arg);
}

#[test]
fn static_constructor_union_is_reconciled() {
    assert!(is_static_constructor("File", "open"));
    assert!(is_static_constructor("Duration", "from_secs"));
    assert!(is_static_constructor("Instant", "now"));
    assert!(is_static_constructor("TcpListener", "bind"));
    assert!(is_static_constructor("TcpStream", "connect"));
    assert!(is_static_constructor("BufReader", "new"));
    assert!(is_static_constructor("BufWriter", "with_capacity"));
    assert!(!is_static_constructor("String", "from"));
    assert!(is_static_constructor("String", "from_bytes"));
    assert!(is_static_constructor("Thread", "spawn"));
    assert!(is_static_constructor("Mutex", "new"));
    assert!(is_static_constructor("Arc", "new"));
    assert!(is_static_constructor("SharedSync", "new"));
    assert!(is_static_constructor("Vec[String]", "with_capacity"));
    assert!(is_static_constructor("HashMap[K, V]", "from_iter"));
    assert!(is_static_constructor("AnyUserClass", "new"));
    assert!(!is_static_constructor("Vec", "len"));
    assert!(!is_static_constructor("File", "read"));
}
