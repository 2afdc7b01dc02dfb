//! Runtime-callee ownership: which runtime symbols return a fresh heap
//! allocation, which borrow or take over their arguments, and which
//! `Type.method` pairs are static constructors.
//!
//! Every runtime symbol the drop-elaboration pass special-cases is classified
//! here, once, by `callee_ownership`. A wrong entry is a double free or a use
//! after free, so the tables are kept declarative.
use vstd::prelude::*;

use crate::hir::nodes::{DefId, HirSelfMode};
use crate::hir::types::Ty;
use crate::resolve::symbols::{DefKind, Definition, FnSignature, SymbolTable};
use crate::text::{first_index, has_prefix, has_suffix, last_index, table_contains, table_has, find_seq};

verus! {

/// What the callee does with the value it returns into `dest`.
#[derive(Debug, Clone, Copy, PartialEq, Eq, Structural)]
pub enum ResultOwnership {
    /// Returns a fresh heap allocation owned exclusively by `dest`
    /// (drop-elaborate `dest` at scope exit).
    Fresh,
    /// No owning result to track (unit or integer return, or a free helper);
    /// `dest` is conservatively tainted.
    Untracked,
}

/// Which positional arguments (0 to 7) have their ownership transferred to
/// the callee, as a bit set.
#[derive(Debug, Clone, Copy, PartialEq, Eq, Structural)]
pub struct ArgMask(u8);

impl ArgMask {
    /// The bit set.
    pub closed spec fn bits(self) -> u8 {
        self.0
    }

    /// Argument `i` is in the set.
    pub open spec fn has(self, i: int) -> bool {
        transfers_arg(self.bits(), i)
    }

    /// The empty set.
    pub fn none() -> (m: Self)
        ensures
            m.bits() == 0,
            forall|k: int| !m.has(k),
    {
        assert(forall|k: u8| k < 8 ==> (0u8 >> k) & 1u8 == 0u8) by (bit_vector);
        ArgMask(0)
    }

    /// The set holding only argument `i`.
    pub fn single(i: usize) -> (m: Self)
        requires
            i < 8,
        ensures
            m.bits() == (1u8 << (i as u8)),
            forall|k: int| m.has(k) <==> k == i,
    {
        let b: u8 = 1u8 << (i as u8);
        proof {
            let ii = i as u8;
            assert(forall|k: u8| k < 8 ==> (((1u8 << ii) >> k) & 1u8 == 1u8 <==> k == ii))
                by (bit_vector)
                requires ii < 8;
        }
        ArgMask(b)
    }

    /// The set holding arguments `i` and `j`.
    pub fn pair(i: usize, j: usize) -> (m: Self)
        requires
            i < 8,
            j < 8,
        ensures
            m.bits() == (1u8 << (i as u8)) | (1u8 << (j as u8)),
            forall|k: int| m.has(k) <==> (k == i || k == j),
    {
        let b: u8 = (1u8 << (i as u8)) | (1u8 << (j as u8));
        proof {
            let ii = i as u8;
            let jj = j as u8;
            assert(forall|k: u8|
                k < 8 ==> ((((1u8 << ii) | (1u8 << jj)) >> k) & 1u8 == 1u8 <==> (k == ii || k
                    == jj))) by (bit_vector)
                requires
                    ii < 8,
                    jj < 8,
            ;
        }
        ArgMask(b)
    }

    /// Is argument `i` in the set?
    pub fn contains(self, i: usize) -> (r: bool)
        requires
            i < 8,
        ensures
            r == self.has(i as int),
    {
        let ii = i as u8;
        let b = self.0;
        let r = b & (1u8 << ii) != 0;
        assert(((b & (1u8 << ii)) != 0u8) == ((b >> ii) & 1u8 == 1u8)) by (bit_vector)
            requires ii < 8;
        r
    }
}

/// The full ownership verdict for one callee.
#[derive(Debug, Clone, Copy, PartialEq, Eq, Structural)]
pub struct CalleeOwnership {
    /// Result-into-`dest` ownership.
    pub result: ResultOwnership,
    /// Argument 0 is borrowed even though the callee otherwise transfers
    /// (`_init` constructors and the free family). Highest precedence.
    pub borrows_first_arg: bool,
    /// Arguments explicitly transferred regardless of `args_are_borrowed`.
    pub arg_transfer: ArgMask,
    /// All remaining pointer arguments are borrowed, not transferred.
    /// Lowest precedence.
    pub args_are_borrowed: bool,
}

impl Default for CalleeOwnership {
    /// The conservative verdict for an unknown or user-defined callee: no
    /// owning result, every argument transferred.
    fn default() -> (o: Self)
        ensures
            o.result == ResultOwnership::Untracked,
            !o.borrows_first_arg,
            o.arg_transfer.bits() == 0,
            !o.args_are_borrowed,
    {
        CalleeOwnership {
            result: ResultOwnership::Untracked,
            borrows_first_arg: false,
            arg_transfer: ArgMask::none(),
            args_are_borrowed: false,
        }
    }
}

// ---------------------------------------------------------------------------
// The declarative tables.
// ---------------------------------------------------------------------------

/// Callees returning a fresh heap allocation owned by `dest`.
pub open spec fn fresh_alloc_callees() -> Seq<&'static str> {
    seq![
        "String_from", "Vec_new", "Hash_new", "HashMap_new", "ruxen_string_from",
        "ruxen_string_concat", "ruxen_vec_new", "ruxen_hash_new", "String_into_bytes",
        "ruxen_string_into_bytes", "String_push", "ruxen_string_push", "Vec_from_iter",
        "ruxen_vec_from_iter", "String_from_iter", "HashMap_from_iter", "Hash_from_iter",
        "Set_from_iter", "HashSet_from_iter", "ruxen_string_from_iter", "ruxen_hash_from_iter",
        "ruxen_set_from_iter", "Set_new", "HashSet_new", "ruxen_set_new", "HashMap_with_capacity",
        "Hash_with_capacity", "ruxen_hash_with_capacity", "HashMap_keys", "HashMap_values",
        "HashMap_iter", "Hash_keys", "Hash_values", "Hash_iter", "ruxen_hash_keys",
        "ruxen_hash_values", "ruxen_hash_iter", "ruxen_hash_entries", "HashMap_remove",
        "Hash_remove", "ruxen_hash_remove", "HashSet_with_capacity", "Set_with_capacity",
        "ruxen_set_with_capacity", "HashSet_iter", "Set_iter", "ruxen_set_iter", "HashSet_union",
        "HashSet_intersection", "HashSet_difference", "Set_union", "Set_intersection",
        "Set_difference", "ruxen_set_union", "ruxen_set_intersection", "ruxen_set_difference",
        "ruxen_vec_chain", "ruxen_vec_zip", "Command_new", "ruxen_command_new", "Command_arg",
        "ruxen_command_arg", "Command_args", "ruxen_command_args", "Command_env",
        "ruxen_command_env", "Command_current_dir", "ruxen_command_current_dir",
        "Command_status", "ruxen_command_status", "Command_output", "ruxen_command_output",
        "Output_status", "ruxen_output_status", "Output_stdout", "ruxen_output_stdout",
        "Output_stderr", "ruxen_output_stderr", "File_open", "ruxen_file_open", "File_create",
        "ruxen_file_create", "File_append", "ruxen_file_append", "File_open_options",
        "ruxen_file_open_options", "File_metadata", "ruxen_file_metadata", "File_read",
        "ruxen_file_read", "File_read_to_string", "ruxen_file_read_to_string", "File_read_all",
        "ruxen_file_read_all", "File_write", "ruxen_file_write", "File_write_all",
        "ruxen_file_write_all", "File_write_str", "ruxen_file_write_str", "File_flush",
        "ruxen_file_flush", "File_seek", "ruxen_file_seek", "File_close", "ruxen_file_close",
        "OpenOptions_new", "ruxen_open_options_new", "OpenOptions_read",
        "ruxen_open_options_read", "OpenOptions_write", "ruxen_open_options_write",
        "OpenOptions_append", "ruxen_open_options_append", "OpenOptions_truncate",
        "ruxen_open_options_truncate", "OpenOptions_create", "ruxen_open_options_create",
        "OpenOptions_create_new", "ruxen_open_options_create_new", "Mutex_lock_raw",
        "Mutex_try_lock_raw", "ruxen_mutex_lock", "ruxen_mutex_try_lock",
    ]
}

fn fresh_alloc_table() -> (t: Vec<&'static str>)
    ensures
        t@ == fresh_alloc_callees(),
{
    vec![
        "String_from", "Vec_new", "Hash_new", "HashMap_new", "ruxen_string_from",
        "ruxen_string_concat", "ruxen_vec_new", "ruxen_hash_new", "String_into_bytes",
        "ruxen_string_into_bytes", "String_push", "ruxen_string_push", "Vec_from_iter",
        "ruxen_vec_from_iter", "String_from_iter", "HashMap_from_iter", "Hash_from_iter",
        "Set_from_iter", "HashSet_from_iter", "ruxen_string_from_iter", "ruxen_hash_from_iter",
        "ruxen_set_from_iter", "Set_new", "HashSet_new", "ruxen_set_new", "HashMap_with_capacity",
        "Hash_with_capacity", "ruxen_hash_with_capacity", "HashMap_keys", "HashMap_values",
        "HashMap_iter", "Hash_keys", "Hash_values", "Hash_iter", "ruxen_hash_keys",
        "ruxen_hash_values", "ruxen_hash_iter", "ruxen_hash_entries", "HashMap_remove",
        "Hash_remove", "ruxen_hash_remove", "HashSet_with_capacity", "Set_with_capacity",
        "ruxen_set_with_capacity", "HashSet_iter", "Set_iter", "ruxen_set_iter", "HashSet_union",
        "HashSet_intersection", "HashSet_difference", "Set_union", "Set_intersection",
        "Set_difference", "ruxen_set_union", "ruxen_set_intersection", "ruxen_set_difference",
        "ruxen_vec_chain", "ruxen_vec_zip", "Command_new", "ruxen_command_new", "Command_arg",
        "ruxen_command_arg", "Command_args", "ruxen_command_args", "Command_env",
        "ruxen_command_env", "Command_current_dir", "ruxen_command_current_dir",
        "Command_status", "ruxen_command_status", "Command_output", "ruxen_command_output",
        "Output_status", "ruxen_output_status", "Output_stdout", "ruxen_output_stdout",
        "Output_stderr", "ruxen_output_stderr", "File_open", "ruxen_file_open", "File_create",
        "ruxen_file_create", "File_append", "ruxen_file_append", "File_open_options",
        "ruxen_file_open_options", "File_metadata", "ruxen_file_metadata", "File_read",
        "ruxen_file_read", "File_read_to_string", "ruxen_file_read_to_string", "File_read_all",
        "ruxen_file_read_all", "File_write", "ruxen_file_write", "File_write_all",
        "ruxen_file_write_all", "File_write_str", "ruxen_file_write_str", "File_flush",
        "ruxen_file_flush", "File_seek", "ruxen_file_seek", "File_close", "ruxen_file_close",
        "OpenOptions_new", "ruxen_open_options_new", "OpenOptions_read",
        "ruxen_open_options_read", "OpenOptions_write", "ruxen_open_options_write",
        "OpenOptions_append", "ruxen_open_options_append", "OpenOptions_truncate",
        "ruxen_open_options_truncate", "OpenOptions_create", "ruxen_open_options_create",
        "OpenOptions_create_new", "ruxen_open_options_create_new", "Mutex_lock_raw",
        "Mutex_try_lock_raw", "ruxen_mutex_lock", "ruxen_mutex_try_lock",
    ]
}

/// Free helpers whose argument 0 stays borrowed (besides the `_init` suffix rule).
pub open spec fn free_family() -> Seq<&'static str> {
    seq![
        "ruxen_dealloc", "ruxen_string_free", "ruxen_vec_free", "ruxen_vec_drop_string",
        "ruxen_vec_drop_vec", "ruxen_hash_free", "ruxen_set_free", "ruxen_hash_drop_string_v",
        "ruxen_hash_drop_v_string", "ruxen_hash_drop_string_string", "ruxen_hash_drop_v_vec",
        "ruxen_set_drop_string",
    ]
}

fn free_family_table() -> (t: Vec<&'static str>)
    ensures
        t@ == free_family(),
{
    vec![
        "ruxen_dealloc", "ruxen_string_free", "ruxen_vec_free", "ruxen_vec_drop_string",
        "ruxen_vec_drop_vec", "ruxen_hash_free", "ruxen_set_free", "ruxen_hash_drop_string_v",
        "ruxen_hash_drop_v_string", "ruxen_hash_drop_string_string", "ruxen_hash_drop_v_vec",
        "ruxen_set_drop_string",
    ]
}

/// Runtime helpers that consume their arguments.
pub open spec fn consume_helpers() -> Seq<&'static str> {
    seq![
        "ruxen_dealloc", "ruxen_string_free", "ruxen_vec_free", "ruxen_vec_drop_string",
        "ruxen_vec_drop_vec", "ruxen_hash_free", "ruxen_set_free", "ruxen_hash_drop_string_v",
        "ruxen_hash_drop_v_string", "ruxen_hash_drop_string_string", "ruxen_hash_drop_v_vec",
        "ruxen_set_drop_string", "ruxen_string_into_bytes", "String_into_bytes",
        "ruxen_vec_from_iter", "Vec_from_iter",
    ]
}

fn consume_helpers_table() -> (t: Vec<&'static str>)
    ensures
        t@ == consume_helpers(),
{
    vec![
        "ruxen_dealloc", "ruxen_string_free", "ruxen_vec_free", "ruxen_vec_drop_string",
        "ruxen_vec_drop_vec", "ruxen_hash_free", "ruxen_set_free", "ruxen_hash_drop_string_v",
        "ruxen_hash_drop_v_string", "ruxen_hash_drop_string_string", "ruxen_hash_drop_v_vec",
        "ruxen_set_drop_string", "ruxen_string_into_bytes", "String_into_bytes",
        "ruxen_vec_from_iter", "Vec_from_iter",
    ]
}

/// Callees that move their pointer arguments into a runtime-owned structure
/// (the task scheduler or a spawned thread).
pub open spec fn move_by_ffi_callees() -> Seq<&'static str> {
    seq!["ruxen_executor_spawn", "Task_spawn_raw", "ruxen_thread_spawn", "Thread_spawn", "Thread_spawn_raw"]
}

fn move_by_ffi_table() -> (t: Vec<&'static str>)
    ensures
        t@ == move_by_ffi_callees(),
{
    vec!["ruxen_executor_spawn", "Task_spawn_raw", "ruxen_thread_spawn", "Thread_spawn", "Thread_spawn_raw"]
}

/// `Command` builder methods.
pub open spec fn command_builder() -> Seq<&'static str> {
    seq![
        "Command_arg", "ruxen_command_arg", "Command_args", "ruxen_command_args", "Command_env",
        "ruxen_command_env", "Command_current_dir", "ruxen_command_current_dir",
    ]
}

fn command_builder_table() -> (t: Vec<&'static str>)
    ensures
        t@ == command_builder(),
{
    vec![
        "Command_arg", "ruxen_command_arg", "Command_args", "ruxen_command_args", "Command_env",
        "ruxen_command_env", "Command_current_dir", "ruxen_command_current_dir",
    ]
}

/// `Command` terminals and `Output` / `ExitStatus` accessors.
pub open spec fn command_terminal_or_accessor() -> Seq<&'static str> {
    seq![
        "Command_status", "ruxen_command_status", "Command_output", "ruxen_command_output",
        "Output_status", "ruxen_output_status", "Output_stdout", "ruxen_output_stdout",
        "Output_stderr", "ruxen_output_stderr", "ExitStatus_code", "ruxen_exit_status_code",
        "ExitStatus_success", "ruxen_exit_status_success",
    ]
}

fn command_terminal_table() -> (t: Vec<&'static str>)
    ensures
        t@ == command_terminal_or_accessor(),
{
    vec![
        "Command_status", "ruxen_command_status", "Command_output", "ruxen_command_output",
        "Output_status", "ruxen_output_status", "Output_stdout", "ruxen_output_stdout",
        "Output_stderr", "ruxen_output_stderr", "ExitStatus_code", "ruxen_exit_status_code",
        "ExitStatus_success", "ruxen_exit_status_success",
    ]
}

/// (base type, static-constructor method names). `new` is handled by the
/// universal rule in `is_static_constructor`.
pub open spec fn static_ctors() -> Seq<(&'static str, Seq<&'static str>)> {
    seq![
        ("String", seq!["with_capacity", "from_iter", "from_bytes"]),
        ("Vec", seq!["with_capacity", "from_iter"]),
        ("Array", seq!["with_capacity", "from_iter"]),
        ("Hash", seq!["with_capacity", "from_iter"]),
        ("HashMap", seq!["with_capacity", "from_iter"]),
        ("Map", seq!["with_capacity", "from_iter"]),
        ("Set", seq!["with_capacity", "from_iter"]),
        ("HashSet", seq!["with_capacity", "from_iter"]),
        ("Thread", seq!["spawn", "current", "sleep", "yield_now"]),
        ("Duration", seq!["from_secs", "from_millis", "from_micros", "from_nanos"]),
        ("Instant", seq!["now"]),
        ("TcpListener", seq!["bind"]),
        ("TcpStream", seq!["connect"]),
        ("File", seq!["open", "create", "append", "open_options"]),
        ("BufReader", seq!["with_capacity"]),
        ("BufWriter", seq!["with_capacity"]),
    ]
}

fn static_ctors_table() -> (t: Vec<(&'static str, Vec<&'static str>)>)
    ensures
        t@.len() == static_ctors().len(),
        forall|i: int|
            0 <= i < t@.len() ==> (#[trigger] t@[i]).0 == static_ctors()[i].0 && t@[i].1@
                == static_ctors()[i].1,
{
    let t = vec![
        ("String", vec!["with_capacity", "from_iter", "from_bytes"]),
        ("Vec", vec!["with_capacity", "from_iter"]),
        ("Array", vec!["with_capacity", "from_iter"]),
        ("Hash", vec!["with_capacity", "from_iter"]),
        ("HashMap", vec!["with_capacity", "from_iter"]),
        ("Map", vec!["with_capacity", "from_iter"]),
        ("Set", vec!["with_capacity", "from_iter"]),
        ("HashSet", vec!["with_capacity", "from_iter"]),
        ("Thread", vec!["spawn", "current", "sleep", "yield_now"]),
        ("Duration", vec!["from_secs", "from_millis", "from_micros", "from_nanos"]),
        ("Instant", vec!["now"]),
        ("TcpListener", vec!["bind"]),
        ("TcpStream", vec!["connect"]),
        ("File", vec!["open", "create", "append", "open_options"]),
        ("BufReader", vec!["with_capacity"]),
        ("BufWriter", vec!["with_capacity"]),
    ];
    assert(t@[0].1@ =~= static_ctors()[0].1);
    t
}

// ---------------------------------------------------------------------------
// Name analysis.
// ---------------------------------------------------------------------------

/// The method part of a mangled callee: the text after the first `_` that
/// follows the last `]` (the whole name when there is no such `_`).
/// `Vec_push` gives `push`; `HashMap[K, V]_insert` gives `insert`.
pub open spec fn method_name_of(c: Seq<char>) -> Seq<char> {
    let start = match last_index(c, ']') {
        Some(i) => i + 1,
        None => 0,
    };
    match first_index(c.skip(start), '_') {
        Some(u) => c.skip(start + u + 1),
        None => c,
    }
}

/// The method part of a mangled callee name (see `method_name_of`).
pub fn extract_method_name(callee: &str) -> (r: String)
    ensures
        r@ == method_name_of(callee@),
{
    let n = callee.unicode_len();
    let start: usize = match crate::text::rfind_char(callee, ']') {
        Some(i) => i + 1,
        None => 0,
    };
    let rest = crate::text::substring(callee, start, n);
    assert(rest@ =~= callee@.skip(start as int));
    match crate::text::find_char(rest.as_str(), '_') {
        Some(u) => {
            let r = crate::text::substring(callee, start + u + 1, n);
            assert(r@ =~= callee@.skip(start + u + 1));
            r
        },
        None => crate::text::substring(callee, 0, n),
    }
}

/// The three runtime collection families, keyed off the mangled-callee type
/// prefix (`Array` folds into `Vec`, `HashMap`/`Map` into `Hash`, `HashSet`
/// into `Set`).
#[derive(Debug, Clone, Copy, PartialEq, Eq, Structural)]
pub enum CollectionFamily {
    Vec,
    Hash,
    HashSet,
}

/// The collection family of a mangled callee.
pub open spec fn spec_collection_family(c: Seq<char>) -> Option<CollectionFamily> {
    if has_prefix(c, "Vec_"@) || has_prefix(c, "Vec["@) || has_prefix(c, "Array_"@) || has_prefix(
        c,
        "Array["@,
    ) {
        Some(CollectionFamily::Vec)
    } else if has_prefix(c, "Hash_"@) || has_prefix(c, "Hash["@) || has_prefix(c, "HashMap_"@)
        || has_prefix(c, "HashMap["@) || has_prefix(c, "Map_"@) || has_prefix(c, "Map["@) {
        Some(CollectionFamily::Hash)
    } else if has_prefix(c, "Set_"@) || has_prefix(c, "Set["@) || has_prefix(c, "HashSet_"@)
        || has_prefix(c, "HashSet["@) {
        Some(CollectionFamily::HashSet)
    } else {
        None
    }
}

/// Classify `callee` by its collection-type prefix (e.g. `Vec_push`,
/// `HashMap[K, V]_insert`).
fn collection_family(callee: &str) -> (r: Option<CollectionFamily>)
    ensures
        r == spec_collection_family(callee@),
{
    if crate::text::starts_with(callee, "Vec_") || crate::text::starts_with(callee, "Vec[") || crate::text::starts_with(callee, "Array_")
        || crate::text::starts_with(callee, "Array[") {
        Some(CollectionFamily::Vec)
    } else if crate::text::starts_with(callee, "Hash_") || crate::text::starts_with(callee, "Hash[") || crate::text::starts_with(
        callee,
        "HashMap_",
    ) || crate::text::starts_with(callee, "HashMap[") || crate::text::starts_with(callee, "Map_") || crate::text::starts_with(
        callee,
        "Map[",
    ) {
        Some(CollectionFamily::Hash)
    } else if crate::text::starts_with(callee, "Set_") || crate::text::starts_with(callee, "Set[") || crate::text::starts_with(
        callee,
        "HashSet_",
    ) || crate::text::starts_with(callee, "HashSet[") {
        Some(CollectionFamily::HashSet)
    } else {
        None
    }
}

/// The bit set of explicitly transferred arguments of a callee.
pub open spec fn spec_arg_transfer_bits(c: Seq<char>) -> u8 {
    if c == "ruxen_store_ptr"@ {
        2
    } else {
        let m = method_name_of(c);
        let f = spec_collection_family(c);
        if f == Some(CollectionFamily::Vec) && m == "push"@ {
            2
        } else if f == Some(CollectionFamily::Vec) && m == "insert"@ {
            4
        } else if f == Some(CollectionFamily::Hash) && m == "insert"@ {
            6
        } else if f == Some(CollectionFamily::HashSet) && m == "insert"@ {
            2
        } else if c == "ruxen_vec_push"@ {
            2
        } else if c == "ruxen_vec_insert"@ {
            4
        } else if c == "ruxen_hash_insert"@ {
            6
        } else if c == "ruxen_set_insert"@ {
            2
        } else {
            0
        }
    }
}

/// What an argument of a collection mutator is: the collection itself, a
/// position in it, or a key or value that the collection keeps.
#[derive(Debug, Clone, Copy, PartialEq, Eq, Structural)]
pub enum ArgRole {
    Receiver,
    Index,
    Key,
    Value,
}

/// The argument roles of the mutators that store what they are given:
/// `push(vec, value)`, `insert(vec, index, value)`, `insert(map, key, value)`,
/// `insert(set, value)`, by mangled name or runtime helper, and
/// `ruxen_store_ptr(slot, value)`. Any other callee has none.
pub open spec fn mutator_arg_roles(c: Seq<char>) -> Option<Seq<ArgRole>> {
    let m = method_name_of(c);
    let f = spec_collection_family(c);
    if c == "ruxen_store_ptr"@ {
        Some(seq![ArgRole::Receiver, ArgRole::Value])
    } else if f == Some(CollectionFamily::Vec) && m == "push"@ {
        Some(seq![ArgRole::Receiver, ArgRole::Value])
    } else if f == Some(CollectionFamily::Vec) && m == "insert"@ {
        Some(seq![ArgRole::Receiver, ArgRole::Index, ArgRole::Value])
    } else if f == Some(CollectionFamily::Hash) && m == "insert"@ {
        Some(seq![ArgRole::Receiver, ArgRole::Key, ArgRole::Value])
    } else if f == Some(CollectionFamily::HashSet) && m == "insert"@ {
        Some(seq![ArgRole::Receiver, ArgRole::Value])
    } else if c == "ruxen_vec_push"@ {
        Some(seq![ArgRole::Receiver, ArgRole::Value])
    } else if c == "ruxen_vec_insert"@ {
        Some(seq![ArgRole::Receiver, ArgRole::Index, ArgRole::Value])
    } else if c == "ruxen_hash_insert"@ {
        Some(seq![ArgRole::Receiver, ArgRole::Key, ArgRole::Value])
    } else if c == "ruxen_set_insert"@ {
        Some(seq![ArgRole::Receiver, ArgRole::Value])
    } else {
        None
    }
}

/// A mutator that stores its arguments takes ownership of exactly the keys
/// and values it keeps: never of the collection it is called on, nor of an
/// index (so `Vec_insert` moves its argument 2, the value, and not its
/// argument 1, the position).
pub proof fn law_mutator_transfers_exactly_kept_args(c: Seq<char>, k: int)
    requires
        mutator_arg_roles(c) is Some,
    ensures
        transfers_arg(spec_arg_transfer_bits(c), k) <==> ({
            let roles = mutator_arg_roles(c)->0;
            0 <= k < roles.len() && (roles[k] is Key || roles[k] is Value)
        }),
{
    assert(forall|j: u8|
        j < 8 ==> (((2u8 >> j) & 1u8 == 1u8) <==> j == 1) && (((4u8 >> j) & 1u8 == 1u8) <==> j == 2)
            && (((6u8 >> j) & 1u8 == 1u8) <==> (j == 1 || j == 2))) by (bit_vector);
    if 0 <= k < 8 {
        let j: u8 = k as u8;
        assert(j == k);
        assert(((2u8 >> j) & 1u8 == 1u8) <==> j == 1);
        assert(((4u8 >> j) & 1u8 == 1u8) <==> j == 2);
        assert(((6u8 >> j) & 1u8 == 1u8) <==> (j == 1 || j == 2));
    }
}

/// A callee that is not such a mutator takes ownership of no argument.
pub proof fn law_other_callees_transfer_nothing(c: Seq<char>, k: int)
    requires
        mutator_arg_roles(c) is None,
    ensures
        !transfers_arg(spec_arg_transfer_bits(c), k),
{
    assert(forall|j: u8| j < 8 ==> (0u8 >> j) & 1u8 == 0u8) by (bit_vector);
    if 0 <= k < 8 {
        let j: u8 = k as u8;
        assert((0u8 >> j) & 1u8 == 0u8);
    }
}

/// Explicit per-argument transfers: collection push/insert value and key
/// slots, and the pointer-store helper's argument 1.
fn arg_transfer_mask(callee: &str) -> (r: ArgMask)
    ensures
        r.bits() == spec_arg_transfer_bits(callee@),
{
    assert((1u8 << 1u8) == 2u8 && (1u8 << 2u8) == 4u8 && ((1u8 << 1u8) | (1u8 << 2u8)) == 6u8)
        by (bit_vector);
    if crate::text::str_eq(callee, "ruxen_store_ptr") {
        return ArgMask::single(1);
    }
    let m = extract_method_name(callee);
    let family = collection_family(callee);
    let ms = m.as_str();
    let is_push = crate::text::str_eq(ms, "push");
    let is_insert = crate::text::str_eq(ms, "insert");
    match family {
        Some(CollectionFamily::Vec) if is_push => {
            return ArgMask::single(1);
        },
        Some(CollectionFamily::Vec) if is_insert => {
            return ArgMask::single(2);
        },
        Some(CollectionFamily::Hash) if is_insert => {
            return ArgMask::pair(1, 2);
        },
        Some(CollectionFamily::HashSet) if is_insert => {
            return ArgMask::single(1);
        },
        _ => {},
    }
    if crate::text::str_eq(callee, "ruxen_vec_push") {
        ArgMask::single(1)
    } else if crate::text::str_eq(callee, "ruxen_vec_insert") {
        ArgMask::single(2)
    } else if crate::text::str_eq(callee, "ruxen_hash_insert") {
        ArgMask::pair(1, 2)
    } else if crate::text::str_eq(callee, "ruxen_set_insert") {
        ArgMask::single(1)
    } else {
        ArgMask::none()
    }
}

/// A callee prefix whose remaining pointer arguments the runtime borrows.
pub open spec fn spec_has_runtime_prefix(c: Seq<char>) -> bool {
    spec_collection_family(c) is Some || has_prefix(c, "ruxen_"@) || has_prefix(c, "String_"@)
        || has_prefix(c, "&str_"@)
}

fn has_runtime_prefix(c: &str) -> (r: bool)
    ensures
        r == spec_has_runtime_prefix(c@),
{
    collection_family(c).is_some() || crate::text::starts_with(c, "ruxen_") || crate::text::starts_with(c, "String_")
        || crate::text::starts_with(c, "&str_")
}

/// The remaining pointer arguments of the callee are borrowed.
pub open spec fn spec_args_are_borrowed(c: Seq<char>) -> bool {
    let consumes = table_contains(consume_helpers(), c);
    let move_by_ffi = table_contains(move_by_ffi_callees(), c);
    let builder = table_contains(command_builder(), c);
    let terminal = table_contains(command_terminal_or_accessor(), c);
    ((!consumes && !move_by_ffi && spec_has_runtime_prefix(c)) || terminal) && !builder
}

/// The callee returns a fresh allocation that its destination owns.
pub open spec fn spec_result_fresh(c: Seq<char>) -> bool {
    table_contains(fresh_alloc_callees(), c)
}

/// The callee borrows its first argument (a constructor's `_init` or a free
/// helper), whatever it does with the others.
pub open spec fn spec_borrows_first_arg(c: Seq<char>) -> bool {
    has_suffix(c, "_init"@) || table_contains(free_family(), c)
}

/// Argument `i` is in the transfer bit set `bits`.
pub open spec fn transfers_arg(bits: u8, i: int) -> bool {
    0 <= i < 8 && (bits >> (i as u8)) & 1u8 == 1u8
}

/// The ownership lookup for one callee.
pub fn callee_ownership(callee: &str) -> (o: CalleeOwnership)
    ensures
        o.result == (if spec_result_fresh(callee@) {
            ResultOwnership::Fresh
        } else {
            ResultOwnership::Untracked
        }),
        o.borrows_first_arg == spec_borrows_first_arg(callee@),
        o.arg_transfer.bits() == spec_arg_transfer_bits(callee@),
        o.args_are_borrowed == spec_args_are_borrowed(callee@),
{
    let result = if table_has(&fresh_alloc_table(), callee) {
        ResultOwnership::Fresh
    } else {
        ResultOwnership::Untracked
    };
    let borrows_first_arg = crate::text::ends_with(callee, "_init") || table_has(
        &free_family_table(),
        callee,
    );
    let arg_transfer = arg_transfer_mask(callee);
    let consumes = table_has(&consume_helpers_table(), callee);
    let move_by_ffi = table_has(&move_by_ffi_table(), callee);
    let builder = table_has(&command_builder_table(), callee);
    let prefix_borrow = has_runtime_prefix(callee);
    let terminal = table_has(&command_terminal_table(), callee);
    let args_are_borrowed = ((!consumes && !move_by_ffi && prefix_borrow) || terminal) && !builder;
    CalleeOwnership { result, borrows_first_arg, arg_transfer, args_are_borrowed }
}

/// Does this callee move its pointer arguments into a runtime-owned structure?
pub fn is_move_by_ffi(callee: &str) -> (r: bool)
    ensures
        r == table_contains(move_by_ffi_callees(), callee@),
{
    table_has(&move_by_ffi_table(), callee)
}

/// The base of a type name: the text before the first `[`.
pub open spec fn base_ty_name(t: Seq<char>) -> Seq<char> {
    match first_index(t, '[') {
        Some(p) => t.take(p),
        None => t,
    }
}

/// `ty_name.method_name` is a static constructor.
pub open spec fn spec_is_static_constructor(t: Seq<char>, m: Seq<char>) -> bool {
    m == "new"@ || exists|i: int|
        0 <= i < static_ctors().len() && (#[trigger] static_ctors()[i]).0@ == base_ty_name(t)
            && table_contains(static_ctors()[i].1, m)
}

/// Is `ty_name.method_name` a static (no-`self`) constructor that
/// dispatches directly to a runtime symbol? Any `.new` is one.
pub fn is_static_constructor(ty_name: &str, method_name: &str) -> (r: bool)
    ensures
        r == spec_is_static_constructor(ty_name@, method_name@),
{
    if crate::text::str_eq(method_name, "new") {
        return true;
    }
    let base = match crate::text::find_char(ty_name, '[') {
        Some(pos) => crate::text::substring(ty_name, 0, pos),
        None => crate::text::substring(ty_name, 0, ty_name.unicode_len()),
    };
    assert(base@ =~= base_ty_name(ty_name@));
    let table = static_ctors_table();
    let mut i: usize = 0;
    while i < table.len()
        invariant
            i <= table@.len(),
            base@ == base_ty_name(ty_name@),
            method_name@ != "new"@,
            table@.len() == static_ctors().len(),
            forall|j: int|
                0 <= j < table@.len() ==> (#[trigger] table@[j]).0 == static_ctors()[j].0
                    && table@[j].1@ == static_ctors()[j].1,
            forall|j: int|
                0 <= j < i ==> !((#[trigger] static_ctors()[j]).0@ == base_ty_name(ty_name@)
                    && table_contains(static_ctors()[j].1, method_name@)),
        decreases table@.len() - i,
    {
        if crate::text::str_eq(table[i].0, base.as_str()) && table_has(&table[i].1, method_name) {
            return true;
        }
        i = i + 1;
    }
    false
}

// ---------------------------------------------------------------------------
// User callees: which arguments go to reference parameters.
// ---------------------------------------------------------------------------

/// A declared parameter type that auto-borrows its argument: `&T` / `&var T`,
/// with or without an explicit lifetime.
pub open spec fn spec_ty_is_reference(t: Ty) -> bool {
    t is Ref || t is RefMut || t is RefLifetime || t is RefMutLifetime
}

/// A declared parameter type that is a mutable borrow `&var T`.
pub open spec fn spec_ty_is_mut_reference(t: Ty) -> bool {
    t is RefMut || t is RefMutLifetime
}

fn ty_is_reference(ty: &Ty) -> (r: bool)
    ensures
        r == spec_ty_is_reference(*ty),
{
    match ty {
        Ty::Ref(_) | Ty::RefMut(_) | Ty::RefLifetime(_, _) | Ty::RefMutLifetime(_, _) => true,
        _ => false,
    }
}

fn ty_is_mut_reference(ty: &Ty) -> (r: bool)
    ensures
        r == spec_ty_is_mut_reference(*ty),
{
    match ty {
        Ty::RefMut(_) | Ty::RefMutLifetime(_, _) => true,
        _ => false,
    }
}

/// A mangled callee without its `__mono__…` and then `__overload…` suffixes.
pub open spec fn spec_strip_call_suffixes(c: Seq<char>) -> Seq<char> {
    let base = match find_seq(c, "__mono__"@) {
        Some(p) => c.take(p),
        None => c,
    };
    match find_seq(base, "__overload"@) {
        Some(p) => base.take(p),
        None => base,
    }
}

/// Strip the synthetic `__mono__…` and `__overload…` suffixes a mangled MIR
/// callee may carry, leaving the name the resolver stored.
pub fn strip_call_suffixes(callee: &str) -> (r: String)
    ensures
        r@ == spec_strip_call_suffixes(callee@),
{
    let base = match crate::text::find_str(callee, "__mono__") {
        Some(pos) => crate::text::substring(callee, 0, pos),
        None => crate::text::substring(callee, 0, callee.unicode_len()),
    };
    assert(callee@.subrange(0, callee@.len() as int) =~= callee@);
    let r = match crate::text::find_str(base.as_str(), "__overload") {
        Some(pos) => crate::text::substring(base.as_str(), 0, pos),
        None => crate::text::substring(base.as_str(), 0, base.as_str().unicode_len()),
    };
    assert(base@.subrange(0, base@.len() as int) =~= base@);
    r
}

/// `s` with every `.` replaced by `_`.
pub open spec fn dots_as_underscores(s: Seq<char>) -> Seq<char> {
    s.map_values(|c: char| if c == '.' { '_' } else { c })
}

/// `d` is a class, struct or enum named `cand` (dots read as underscores).
pub open spec fn names_type(d: Definition, cand: Seq<char>) -> bool {
    (d.kind is Class || d.kind is Struct || d.kind is Enum) && (d.name@ == cand
        || dots_as_underscores(d.name@) == cand)
}

/// `base[pos]` is a `_` whose nonempty prefix names a type.
pub open spec fn is_split_point(defs: Seq<Definition>, base: Seq<char>, pos: int) -> bool {
    0 < pos < base.len() && base[pos] == '_' && exists|i: int|
        0 <= i < defs.len() && names_type(#[trigger] defs[i], base.take(pos))
}

/// The largest split point below `end`.
pub open spec fn last_split_below(defs: Seq<Definition>, base: Seq<char>, end: int) -> Option<int>
    decreases end,
{
    if end <= 0 {
        None
    } else if is_split_point(defs, base, end - 1) {
        Some(end - 1)
    } else {
        last_split_below(defs, base, end - 1)
    }
}

/// `i` is the first definition naming the type `cand`.
pub open spec fn is_first_type_def(defs: Seq<Definition>, cand: Seq<char>, i: int) -> bool {
    0 <= i < defs.len() && names_type(defs[i], cand) && forall|k: int|
        0 <= k < i ==> !names_type(#[trigger] defs[k], cand)
}

/// The split of a class-qualified callee `Class_method` at its longest type
/// prefix: the first definition naming that type, and the method name.
pub open spec fn spec_split_class(defs: Seq<Definition>, base: Seq<char>) -> Option<(DefId, Seq<char>)> {
    match last_split_below(defs, base, base.len() as int) {
        Some(pos) => {
            let i = choose|i: int| is_first_type_def(defs, base.take(pos), i);
            Some((defs[i].id, base.skip(pos + 1)))
        },
        None => None,
    }
}

/// Does `name` spell the first `pos` characters of `base` (dots read as
/// underscores when `dotted`)?
fn name_spells_prefix(name: &str, base: &str, pos: usize, dotted: bool) -> (r: bool)
    requires
        pos <= base@.len(),
    ensures
        r == (if dotted {
            dots_as_underscores(name@) == base@.take(pos as int)
        } else {
            name@ == base@.take(pos as int)
        }),
{
    let n = name.unicode_len();
    if n != pos {
        assert(dots_as_underscores(name@).len() == name@.len());
        return false;
    }
    let mut k: usize = 0;
    while k < n
        invariant
            n == name@.len(),
            n == pos,
            pos <= base@.len(),
            k <= n,
            forall|j: int|
                0 <= j < k ==> (if dotted {
                    (if name@[j] == '.' { '_' } else { name@[j] }) == base@[j]
                } else {
                    name@[j] == base@[j]
                }),
        decreases n - k,
    {
        let c = name.get_char(k);
        let c2 = if dotted && c == '.' { '_' } else { c };
        if c2 != base.get_char(k) {
            if dotted {
                assert(dots_as_underscores(name@)[k as int] != base@.take(pos as int)[k as int]);
            } else {
                assert(name@[k as int] != base@.take(pos as int)[k as int]);
            }
            return false;
        }
        k = k + 1;
    }
    if dotted {
        assert(dots_as_underscores(name@) =~= base@.take(pos as int));
    } else {
        assert(name@ =~= base@.take(pos as int));
    }
    true
}

fn def_names_type(d: &Definition, base: &str, pos: usize) -> (r: bool)
    requires
        pos <= base@.len(),
    ensures
        r == names_type(*d, base@.take(pos as int)),
{
    let is_type = match d.kind {
        DefKind::Class | DefKind::Struct | DefKind::Enum => true,
        _ => false,
    };
    is_type && (name_spells_prefix(d.name.as_str(), base, pos, false) || name_spells_prefix(
        d.name.as_str(),
        base,
        pos,
        true,
    ))
}

/// Split a mangled method callee `Class_method` into the defining class's
/// id and the method name, at the longest prefix that names a class, struct
/// or enum. `None` for a name with no such prefix (a free function).
pub fn split_class_qualified_method(symbols: &SymbolTable, base: &str) -> (r: Option<(DefId, String)>)
    ensures
        match (r, spec_split_class(symbols@, base@)) {
            (Some((id, m)), Some((sid, sm))) => id == sid && m@ == sm,
            (None, None) => true,
            _ => false,
        },
{
    let defs = symbols.defs();
    let n = base.unicode_len();
    let mut end: usize = n;
    while end > 0
        invariant
            n == base@.len(),
            end <= n,
            defs@ == symbols@,
            last_split_below(symbols@, base@, n as int) == last_split_below(
                symbols@,
                base@,
                end as int,
            ),
        decreases end,
    {
        let pos = end - 1;
        if pos > 0 && base.get_char(pos) == '_' {
            let mut i: usize = 0;
            while i < defs.len()
                invariant
                    i <= defs@.len(),
                    0 < pos < n,
                    pos + 1 == end,
                    base@[pos as int] == '_',
                    last_split_below(symbols@, base@, n as int) == last_split_below(
                        symbols@,
                        base@,
                        end as int,
                    ),
                    n == base@.len(),
                    defs@ == symbols@,
                    forall|k: int| 0 <= k < i ==> !names_type(#[trigger] defs@[k], base@.take(pos as int)),
                decreases defs@.len() - i,
            {
                if def_names_type(&defs[i], base, pos) {
                    proof {
                        assert(names_type(symbols@[i as int], base@.take(pos as int)));
                        assert(is_split_point(symbols@, base@, pos as int));
                        assert(last_split_below(symbols@, base@, end as int) == Some(pos as int));
                        assert(is_first_type_def(symbols@, base@.take(pos as int), i as int));
                        let j = choose|j: int| is_first_type_def(symbols@, base@.take(pos as int), j);
                        if j < i {
                            assert(!names_type(defs@[j], base@.take(pos as int)));
                        } else if i < j {
                            assert(!names_type(defs@[i as int], base@.take(pos as int)));
                        }
                    }
                    let m = crate::text::substring(base, pos + 1, n);
                    assert(m@ =~= base@.skip(pos + 1));
                    return Some((defs[i].id, m));
                }
                i = i + 1;
            }
            assert(!is_split_point(symbols@, base@, pos as int));
        }
        end = pos;
    }
    None
}

/// Candidate `n` is named `m` or is one of `m`'s overloads.
pub open spec fn overload_matches(n: Seq<char>, m: Seq<char>) -> bool {
    n == m || has_prefix(n, m + "__overload"@)
}

fn name_overload_matches(n: &str, m: &str) -> (r: bool)
    ensures
        r == overload_matches(n@, m@),
{
    let pat = String::from_str(m).concat("__overload");
    crate::text::str_eq(n, m) || crate::text::starts_with(n, pat.as_str())
}

/// `d` is a method of `parent` named `m` (or an overload of it).
pub open spec fn is_method_candidate(d: Definition, parent: DefId, m: Seq<char>) -> bool {
    match d.kind {
        DefKind::Method { parent: p, .. } => p == parent && overload_matches(d.name@, m),
        _ => false,
    }
}

/// `d` is a free function named `base` (or an overload of it).
pub open spec fn is_function_candidate(d: Definition, base: Seq<char>) -> bool {
    d.kind is Function && overload_matches(d.name@, base)
}

/// The signatures a (suffix-stripped) user callee name can resolve to: the
/// methods of the class its longest type prefix names when there are any,
/// else the free functions of that name.
pub open spec fn is_candidate(defs: Seq<Definition>, base: Seq<char>, d: Definition) -> bool {
    match spec_split_class(defs, base) {
        Some((pid, m)) => if exists|i: int|
            0 <= i < defs.len() && is_method_candidate(#[trigger] defs[i], pid, m) {
            is_method_candidate(d, pid, m)
        } else {
            is_function_candidate(d, base)
        },
        None => is_function_candidate(d, base),
    }
}

/// The signature of a function or method definition.
pub open spec fn signature_of(d: Definition) -> FnSignature {
    match d.kind {
        DefKind::Function { signature } => signature,
        DefKind::Method { signature, .. } => signature,
        _ => arbitrary(),
    }
}

/// The signature has a mutable out-channel: a `&var` parameter, or a
/// `var self` / `consume self` receiver.
pub open spec fn has_mut_out_channel(sig: FnSignature) -> bool {
    sig.self_mode == Some(HirSelfMode::RefMut) || sig.self_mode == Some(HirSelfMode::Consuming)
        || exists|k: int| 0 <= k < sig.params@.len() && spec_ty_is_mut_reference(#[trigger] sig.params@[k].ty)
}

/// The signature borrows argument `slot`: for a `self`-taking method slot 0 is
/// the receiver (borrowed only for `&self`) and slot `k + 1` is parameter `k`;
/// otherwise slot `k` is parameter `k`.
pub open spec fn slot_borrowed(sig: FnSignature, slot: int) -> bool {
    if sig.self_mode is Some {
        if slot == 0 {
            sig.self_mode == Some(HirSelfMode::Ref)
        } else {
            slot - 1 < sig.params@.len() && spec_ty_is_reference(sig.params@[slot - 1].ty)
        }
    } else {
        slot < sig.params@.len() && spec_ty_is_reference(sig.params@[slot].ty)
    }
}

/// Argument `slot` of a call to the user callee `base` is passed to a
/// reference parameter in every candidate signature, there is at least one
/// candidate, and no candidate has a mutable out-channel.
pub open spec fn spec_param_is_ref(defs: Seq<Definition>, base: Seq<char>, slot: int) -> bool {
    &&& exists|i: int| 0 <= i < defs.len() && is_candidate(defs, base, #[trigger] defs[i])
    &&& !exists|i: int|
        0 <= i < defs.len() && is_candidate(defs, base, #[trigger] defs[i]) && has_mut_out_channel(
            signature_of(defs[i]),
        )
    &&& forall|i: int|
        0 <= i < defs.len() && is_candidate(defs, base, #[trigger] defs[i]) ==> slot_borrowed(
            signature_of(defs[i]),
            slot,
        )
}

fn sig_of(d: &Definition) -> (r: Option<&FnSignature>)
    ensures
        (d.kind is Function || d.kind is Method) ==> r == Some(&signature_of(*d)),
        !(d.kind is Function || d.kind is Method) ==> r is None,
{
    match &d.kind {
        DefKind::Function { signature } => Some(signature),
        DefKind::Method { signature, .. } => Some(signature),
        _ => None,
    }
}

fn sig_has_mut_out_channel(sig: &FnSignature) -> (r: bool)
    ensures
        r == has_mut_out_channel(*sig),
{
    let self_mut = match sig.self_mode {
        Some(HirSelfMode::RefMut) | Some(HirSelfMode::Consuming) => true,
        _ => false,
    };
    if self_mut {
        return true;
    }
    let mut k: usize = 0;
    while k < sig.params.len()
        invariant
            k <= sig.params@.len(),
            forall|j: int| 0 <= j < k ==> !spec_ty_is_mut_reference(#[trigger] sig.params@[j].ty),
        decreases sig.params@.len() - k,
    {
        if ty_is_mut_reference(&sig.params[k].ty) {
            return true;
        }
        k = k + 1;
    }
    false
}

fn sig_slot_borrowed(sig: &FnSignature, slot: usize) -> (r: bool)
    ensures
        r == slot_borrowed(*sig, slot as int),
{
    if sig.self_mode.is_some() {
        if slot == 0 {
            match sig.self_mode {
                Some(HirSelfMode::Ref) => true,
                _ => false,
            }
        } else {
            slot - 1 < sig.params.len() && ty_is_reference(&sig.params[slot - 1].ty)
        }
    } else {
        slot < sig.params.len() && ty_is_reference(&sig.params[slot].ty)
    }
}

fn method_candidate(d: &Definition, pid: DefId, m: &str) -> (r: bool)
    ensures
        r == is_method_candidate(*d, pid, m@),
{
    match &d.kind {
        DefKind::Method { parent, .. } => *parent == pid && name_overload_matches(d.name.as_str(), m),
        _ => false,
    }
}

fn function_candidate(d: &Definition, base: &str) -> (r: bool)
    ensures
        r == is_function_candidate(*d, base@),
{
    match &d.kind {
        DefKind::Function { .. } => name_overload_matches(d.name.as_str(), base),
        _ => false,
    }
}

fn any_method_candidate(defs: &Vec<Definition>, pid: DefId, m: &str) -> (r: bool)
    ensures
        r == exists|i: int| 0 <= i < defs@.len() && is_method_candidate(#[trigger] defs@[i], pid, m@),
{
    let mut i: usize = 0;
    while i < defs.len()
        invariant
            i <= defs@.len(),
            forall|k: int| 0 <= k < i ==> !is_method_candidate(#[trigger] defs@[k], pid, m@),
        decreases defs@.len() - i,
    {
        if method_candidate(&defs[i], pid, m) {
            return true;
        }
        i = i + 1;
    }
    false
}

/// For a user callee (one the runtime tables do not classify), which of its
/// first `arg_count` arguments are passed to a reference parameter and so
/// are borrowed, not consumed. Conservative: a slot is reported borrowed only
/// when every candidate signature agrees, and no slot is when any candidate
/// has a mutable out-channel.
pub fn user_callee_param_is_ref(symbols: &SymbolTable, mangled_callee: &str, arg_count: usize) -> (r: Vec<bool>)
    ensures
        r@.len() == arg_count,
        forall|slot: int|
            0 <= slot < arg_count ==> r@[slot] == spec_param_is_ref(
                symbols@,
                spec_strip_call_suffixes(mangled_callee@),
                slot,
            ),
{
    let ghost defs_v = symbols@;
    let mut result: Vec<bool> = Vec::new();
    let mut z: usize = 0;
    while z < arg_count
        invariant
            z <= arg_count,
            result@.len() == z,
            forall|j: int| 0 <= j < z ==> !result@[j],
        decreases arg_count - z,
    {
        result.push(false);
        z = z + 1;
    }
    if arg_count == 0 {
        return result;
    }
    let base = strip_call_suffixes(mangled_callee);
    let ghost b = base@;
    let defs = symbols.defs();
    let split = split_class_qualified_method(symbols, base.as_str());

    // Does the class-qualified reading name any method?
    let use_methods = match &split {
        Some((pid, m)) => any_method_candidate(defs, *pid, m.as_str()),
        None => false,
    };
    assert(b == base@);

    // Collect the candidate definitions (by index).
    let mut cands: Vec<usize> = Vec::new();
    let mut i: usize = 0;
    while i < defs.len()
        invariant
            i <= defs@.len(),
            defs@ == defs_v,
            b == base@,
            defs_v == symbols@,
            match (split, spec_split_class(defs_v, b)) {
                (Some((id, m)), Some((sid, sm))) => id == sid && m@ == sm,
                (None, None) => true,
                _ => false,
            },
            use_methods == match split {
                Some((pid, m)) => exists|i: int|
                    0 <= i < defs_v.len() && is_method_candidate(#[trigger] defs_v[i], pid, m@),
                None => false,
            },
            forall|k: int| 0 <= k < cands@.len() ==> (#[trigger] cands@[k]) < i,
            forall|k: int| 0 <= k < cands@.len() ==> is_candidate(defs_v, b, defs_v[cands@[k] as int]),
            forall|j: int|
                0 <= j < i && is_candidate(defs_v, b, #[trigger] defs_v[j]) ==> exists|k: int|
                    0 <= k < cands@.len() && cands@[k] == j,
        decreases defs@.len() - i,
    {
        let d = &defs[i];
        let is_c = match &split {
            Some((pid, m)) => if use_methods {
                method_candidate(d, *pid, m.as_str())
            } else {
                function_candidate(d, base.as_str())
            },
            None => function_candidate(d, base.as_str()),
        };
        assert(is_c == is_candidate(defs_v, b, defs_v[i as int]));
        let ghost old_cands = cands@;
        if is_c {
            cands.push(i);
            assert(cands@[cands@.len() - 1] == i);
        }
        assert forall|j: int|
            0 <= j < i + 1 && is_candidate(defs_v, b, #[trigger] defs_v[j]) implies exists|k: int|
                0 <= k < cands@.len() && cands@[k] == j by {
            if j < i {
                let k = choose|k: int| 0 <= k < old_cands.len() && old_cands[k] == j;
                assert(cands@[k] == j);
            } else {
                assert(cands@[cands@.len() - 1] == j);
            }
        }
        i = i + 1;
    }
    if cands.len() == 0 {
        assert forall|j: int| 0 <= j < defs_v.len() implies !is_candidate(defs_v, b, #[trigger] defs_v[j]) by {
            if is_candidate(defs_v, b, defs_v[j]) {
                let k = choose|k: int| 0 <= k < cands@.len() && cands@[k] == j;
            }
        }
        assert forall|slot: int| 0 <= slot < arg_count implies result@[slot] == spec_param_is_ref(
            defs_v,
            b,
            slot,
        ) by {
            assert(!exists|i: int| 0 <= i < defs_v.len() && is_candidate(defs_v, b, #[trigger] defs_v[i]));
        }
        return result;
    }
    assert(is_candidate(defs_v, b, defs_v[cands@[0] as int]));

    // The escape gate: any mutable out-channel keeps every argument tainted.
    let mut c: usize = 0;
    while c < cands.len()
        invariant
            c <= cands@.len(),
            defs@ == defs_v,
            result@.len() == arg_count,
            forall|j: int| 0 <= j < arg_count ==> !result@[j],
            b == spec_strip_call_suffixes(mangled_callee@),
            defs_v == symbols@,
            forall|k: int| 0 <= k < cands@.len() ==> (#[trigger] cands@[k]) < defs_v.len(),
            forall|k: int| 0 <= k < cands@.len() ==> is_candidate(defs_v, b, defs_v[#[trigger] cands@[k] as int]),
            forall|j: int|
                0 <= j < defs_v.len() && is_candidate(defs_v, b, #[trigger] defs_v[j]) ==> exists|k: int|
                    0 <= k < cands@.len() && cands@[k] == j,
            forall|k: int| 0 <= k < c ==> !has_mut_out_channel(signature_of(defs_v[#[trigger] cands@[k] as int])),
        decreases cands@.len() - c,
    {
        let d = &defs[cands[c]];
        match sig_of(d) {
            Some(sig) => {
                if sig_has_mut_out_channel(sig) {
                    assert forall|slot: int| 0 <= slot < arg_count implies result@[slot]
                        == spec_param_is_ref(defs_v, b, slot) by {
                        assert(is_candidate(defs_v, b, defs_v[cands@[c as int] as int]));
                    }
                    return result;
                }
            },
            None => {
                assert(false);
            },
        }
        c = c + 1;
    }
    assert forall|j: int|
        0 <= j < defs_v.len() && is_candidate(defs_v, b, #[trigger] defs_v[j]) implies !has_mut_out_channel(
            signature_of(defs_v[j]),
        ) by {
        let k = choose|k: int| 0 <= k < cands@.len() && cands@[k] == j;
        assert(!has_mut_out_channel(signature_of(defs_v[cands@[k] as int])));
    }

    // Each slot is borrowed only when every candidate agrees.
    let mut slot: usize = 0;
    while slot < arg_count
        invariant
            slot <= arg_count,
            result@.len() == arg_count,
            b == spec_strip_call_suffixes(mangled_callee@),
            defs_v == symbols@,
            defs@ == defs_v,
            cands@.len() > 0,
            forall|k: int| 0 <= k < cands@.len() ==> (#[trigger] cands@[k]) < defs_v.len(),
            forall|k: int| 0 <= k < cands@.len() ==> is_candidate(defs_v, b, defs_v[cands@[k] as int]),
            forall|j: int|
                0 <= j < defs_v.len() && is_candidate(defs_v, b, #[trigger] defs_v[j]) ==> exists|k: int|
                    0 <= k < cands@.len() && cands@[k] == j,
            exists|i: int| 0 <= i < defs_v.len() && is_candidate(defs_v, b, #[trigger] defs_v[i]),
            !exists|i: int|
                0 <= i < defs_v.len() && is_candidate(defs_v, b, #[trigger] defs_v[i]) && has_mut_out_channel(
                    signature_of(defs_v[i]),
                ),
            forall|j: int| 0 <= j < slot ==> result@[j] == spec_param_is_ref(defs_v, b, j),
            forall|j: int| slot <= j < arg_count ==> !result@[j],
        decreases arg_count - slot,
    {
        let mut all_ref = true;
        let mut c: usize = 0;
        while c < cands.len() && all_ref
            invariant
                c <= cands@.len(),
                defs@ == defs_v,
                forall|k: int| 0 <= k < cands@.len() ==> (#[trigger] cands@[k]) < defs_v.len(),
                forall|k: int| 0 <= k < cands@.len() ==> is_candidate(defs_v, b, defs_v[cands@[k] as int]),
                all_ref ==> forall|k: int|
                    0 <= k < c ==> slot_borrowed(signature_of(defs_v[#[trigger] cands@[k] as int]), slot as int),
                !all_ref ==> exists|k: int|
                    0 <= k < cands@.len() && !slot_borrowed(signature_of(defs_v[#[trigger] cands@[k] as int]), slot as int),
            decreases cands@.len() - c,
        {
            let d = &defs[cands[c]];
            match sig_of(d) {
                Some(sig) => {
                    if !sig_slot_borrowed(sig, slot) {
                        all_ref = false;
                        assert(!slot_borrowed(signature_of(defs_v[cands@[c as int] as int]), slot as int));
                    }
                },
                None => {
                    assert(false);
                },
            }
            c = c + 1;
        }
        proof {
            if all_ref {
                assert forall|j: int|
                    0 <= j < defs_v.len() && is_candidate(defs_v, b, #[trigger] defs_v[j]) implies slot_borrowed(
                        signature_of(defs_v[j]),
                        slot as int,
                    ) by {
                    let k = choose|k: int| 0 <= k < cands@.len() && cands@[k] == j;
                    assert(slot_borrowed(signature_of(defs_v[cands@[k] as int]), slot as int));
                }
            } else {
                let k = choose|k: int|
                    0 <= k < cands@.len() && !slot_borrowed(signature_of(defs_v[#[trigger] cands@[k] as int]), slot as int);
                assert(is_candidate(defs_v, b, defs_v[cands@[k] as int]));
            }
        }
        result.set(slot, all_ref);
        slot = slot + 1;
    }
    result
}

} // verus!
