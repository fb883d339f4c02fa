//! The driver files that the program carries: their names, which copy of them may be
//! loaded, and how often writing them is tried.

use crate::text;
use vstd::prelude::*;

verus! {

/// The names of the driver library and of the driver for a pointer width.
pub open spec fn file_names(pointer_bits: u32) -> (Seq<char>, Seq<char>) {
    if pointer_bits == 64 {
        ("WinRing0x64.dll"@, "WinRing0x64.sys"@)
    } else {
        ("WinRing0.dll"@, "WinRing0.sys"@)
    }
}

/// The names of the driver library and of the driver, for the pointer width of this
/// program. The files of the other width cannot be loaded and are no substitute.
pub fn arch_file_names() -> (r: (&'static str, &'static str))
    ensures
        (r.0@, r.1@) == file_names(usize::BITS),
{
    if usize::BITS == 64 {
        ("WinRing0x64.dll", "WinRing0x64.sys")
    } else {
        ("WinRing0.dll", "WinRing0.sys")
    }
}

/// The message for a file that the program does not carry.
pub open spec fn missing_text(name: Seq<char>) -> Seq<char> {
    name + " not found in embedded binaries"@
}

/// A file that the program carries, or the message that it does not.
pub fn embedded_file(name: &str, found: Option<Vec<u8>>) -> (r: Result<Vec<u8>, String>)
    ensures
        match found {
            Some(data) => r == Ok::<Vec<u8>, String>(data),
            None => r matches Err(e) && e@ == missing_text(name@),
        },
{
    match found {
        Some(data) => Ok(data),
        None => {
            let mut message = text::copy_str(name);
            message.append(" not found in embedded binaries");
            Err(message)
        },
    }
}

/// The driver library that the program carries, or the message that it does not; `found`
/// is what it carries under the name of the library.
pub fn embedded_dll_bytes(found: Option<Vec<u8>>) -> (r: Result<Vec<u8>, String>)
    ensures
        match found {
            Some(data) => r == Ok::<Vec<u8>, String>(data),
            None => r matches Err(e) && e@ == missing_text(file_names(usize::BITS).0),
        },
{
    embedded_file(arch_file_names().0, found)
}

/// Whether two files are the same.
fn same_bytes(a: &Vec<u8>, b: &Vec<u8>) -> (r: bool)
    ensures
        r == (a@ == b@),
{
    if a.len() != b.len() {
        return false;
    }
    let mut i: usize = 0;
    while i < a.len()
        invariant
            i <= a@.len(),
            a@.len() == b@.len(),
            forall|k: int| 0 <= k < i ==> a@[k] == b@[k],
        decreases a@.len() - i,
    {
        if a[i] != b[i] {
            return false;
        }
        i = i + 1;
    }
    assert(a@ =~= b@);
    true
}

/// Whether the driver library on disk may be loaded: it could be read, and it is byte for
/// byte the one that the program carries. Another file under its name was put there by
/// someone else.
pub fn exe_dir_dll_is_embedded(on_disk: &Option<Vec<u8>>, embedded: &Option<Vec<u8>>) -> (r: bool)
    ensures
        r == match (on_disk, embedded) {
            (Some(a), Some(b)) => a@ == b@,
            _ => false,
        },
{
    match (on_disk, embedded) {
        (Some(a), Some(b)) => same_bytes(a, b),
        _ => false,
    }
}

/// How often a file is written before that is given up.
pub const WRITE_ATTEMPTS: u32 = 3;

/// What to do after an attempt to write a file.
pub enum WriteStep {
    /// It is written.
    Written,
    /// Wait for 300 milliseconds and try again.
    Retry,
    /// Give up, with the last error.
    GiveUp(String),
}

/// Decides after an attempt to write a file, counted from zero. Another process may hold
/// the old file open for a moment.
pub fn after_write_attempt(attempt: u32, result: Result<(), String>) -> (r: WriteStep)
    ensures
        match result {
            Ok(_) => r is Written,
            Err(e) => if attempt + 1 < WRITE_ATTEMPTS {
                r is Retry
            } else {
                r == WriteStep::GiveUp(e)
            },
        },
{
    match result {
        Ok(_) => WriteStep::Written,
        Err(e) => {
            if attempt < WRITE_ATTEMPTS - 1 {
                WriteStep::Retry
            } else {
                WriteStep::GiveUp(e)
            }
        },
    }
}

// ── Laws ──

/// The names of the driver files: a library and a driver of the same name, that of 64 bits
/// marked as such.
pub proof fn law_names_of_the_driver(r: (&'static str, &'static str))
    requires
        call_ensures(arch_file_names, (), r),
    ensures
        usize::BITS == 64 ==> r.0@ == "WinRing0x64.dll"@ && r.1@ == "WinRing0x64.sys"@,
        usize::BITS != 64 ==> r.0@ == "WinRing0.dll"@ && r.1@ == "WinRing0.sys"@,
{
}

/// A file that the program carries is given as it is, and one that it does not carry is
/// named.
pub proof fn law_carried_files(
    name: &str,
    found: Option<Vec<u8>>,
    r: Result<Vec<u8>, String>,
    library: Result<Vec<u8>, String>,
)
    requires
        call_ensures(embedded_file, (name, found), r),
        call_ensures(embedded_dll_bytes, (found,), library),
    ensures
        found matches Some(data) ==> r == Ok::<Vec<u8>, String>(data) && library == Ok::<
            Vec<u8>,
            String,
        >(data),
        found is None ==> (r matches Err(e) && e@ == name@ + " not found in embedded binaries"@),
        found is None && usize::BITS == 64 ==> (library matches Err(e) && e@ == "WinRing0x64.dll"@
            + " not found in embedded binaries"@),
        found is None && usize::BITS != 64 ==> (library matches Err(e) && e@ == "WinRing0.dll"@
            + " not found in embedded binaries"@),
{
}

/// The library on disk may be loaded exactly if it and the one that the program carries are
/// there and do not differ in a single byte.
pub proof fn law_only_the_carried_library_is_loaded(
    on_disk: Option<Vec<u8>>,
    embedded: Option<Vec<u8>>,
    r: bool,
)
    requires
        call_ensures(exe_dir_dll_is_embedded, (&on_disk, &embedded), r),
    ensures
        r ==> on_disk is Some && embedded is Some,
        on_disk is Some && embedded is Some ==> (r <==> on_disk->0@.len() == embedded->0@.len()
            && forall|i: int|
            0 <= i < on_disk->0@.len() ==> #[trigger] on_disk->0@[i] == embedded->0@[i]),
{
    if on_disk is Some && embedded is Some {
        let a = on_disk->0@;
        let b = embedded->0@;
        if a.len() == b.len() && forall|i: int| 0 <= i < a.len() ==> #[trigger] a[i] == b[i] {
            assert(a =~= b);
        }
    }
}

/// Writing a file is tried three times, and then it is given up with the last error.
pub proof fn law_three_attempts_to_write(attempt: u32, result: Result<(), String>, r: WriteStep)
    requires
        call_ensures(after_write_attempt, (attempt, result), r),
    ensures
        result is Ok ==> r is Written,
        result is Err && attempt <= 1 ==> r is Retry,
        result is Err && attempt >= 2 ==> r == WriteStep::GiveUp(result->Err_0),
{
}

} // verus!
