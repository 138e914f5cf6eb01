//! Recognising the binding lock files that a launcher leaves under its cache
//! base, and checking the order in which they appear.
use vstd::prelude::*;
use crate::text::{ends_with_text, is_prefix_of, is_suffix_of, starts_with_text};

verus! {

/// The two classes of binding lock file.
#[derive(Clone, Copy, Debug, PartialEq, Eq, Structural)]
pub enum LockKind {
    /// `configure-*.lck`
    Configure,
    /// `install-*.lck`
    Install,
}

/// What a directory walk reports of one entry, as plain values.
#[derive(Clone, Debug)]
pub struct WalkEntry {
    /// The entry is a regular file.
    pub is_file: bool,
    /// The entry's own name, where it is valid UTF-8.
    pub file_name: Option<String>,
    /// The entry's path has a parent.
    pub has_parent: bool,
    /// The parent directory's own name, where it has one.
    pub parent_name: Option<String>,
}

/// The kind of lock file an entry is, if any: a regular file named
/// `configure-*.lck` or `install-*.lck` whose parent directory, where named,
/// is `locks`.
pub open spec fn lock_kind_of(e: WalkEntry) -> Option<LockKind> {
    if !e.is_file || e.file_name is None || !e.has_parent {
        None
    } else if e.parent_name matches Some(p) && p@ != "locks"@ {
        None
    } else {
        let name = e.file_name->0@;
        if !is_suffix_of(".lck"@, name) {
            None
        } else if is_prefix_of("configure-"@, name) {
            Some(LockKind::Configure)
        } else if is_prefix_of("install-"@, name) {
            Some(LockKind::Install)
        } else {
            None
        }
    }
}

/// The lock kinds of a walk, in walk order, leaving out entries that are not
/// lock files.
pub open spec fn lock_kinds(entries: Seq<WalkEntry>) -> Seq<LockKind>
    decreases entries.len(),
{
    if entries.len() == 0 {
        Seq::empty()
    } else {
        let rest = lock_kinds(entries.drop_last());
        match lock_kind_of(entries.last()) {
            Some(k) => rest.push(k),
            None => rest,
        }
    }
}

/// Classifies one walk entry.
pub fn classify_lock(e: &WalkEntry) -> (r: Option<LockKind>)
    ensures
        r == lock_kind_of(*e),
{
    if !e.is_file || !e.has_parent {
        return None;
    }
    let name = match &e.file_name {
        Some(n) => n,
        None => return None,
    };
    if let Some(p) = &e.parent_name {
        let locks = String::from_str("locks");
        if *p != locks {
            return None;
        }
    }
    if !ends_with_text(name.as_str(), ".lck") {
        None
    } else if starts_with_text(name.as_str(), "configure-") {
        Some(LockKind::Configure)
    } else if starts_with_text(name.as_str(), "install-") {
        Some(LockKind::Install)
    } else {
        None
    }
}

/// The lock files among the entries of a walk, in walk order.
pub fn collect_locks(entries: &Vec<WalkEntry>) -> (r: Vec<LockKind>)
    ensures
        r@ == lock_kinds(entries@),
{
    let mut out: Vec<LockKind> = Vec::new();
    let mut i: usize = 0;
    while i < entries.len()
        invariant
            i <= entries@.len(),
            out@ == lock_kinds(entries@.take(i as int)),
        decreases entries@.len() - i,
    {
        assert(entries@.take(i + 1).drop_last() =~= entries@.take(i as int));
        match classify_lock(&entries[i]) {
            Some(k) => out.push(k),
            None => {},
        }
        i = i + 1;
    }
    assert(entries@.take(i as int) =~= entries@);
    out
}

/// The locks expected after two launches that share one cache base: one
/// configure lock, then one install lock.
pub open spec fn configure_then_install() -> Seq<LockKind> {
    seq![LockKind::Configure, LockKind::Install]
}

/// Accepts exactly the observation "configure, then install": install before
/// configure, a missing install lock, or any extra lock is refused.
pub fn locks_in_order(locks: &Vec<LockKind>) -> (r: bool)
    ensures
        r == (locks@ == configure_then_install()),
{
    let r = locks.len() == 2 && locks[0] == LockKind::Configure && locks[1] == LockKind::Install;
    assert(r ==> locks@ =~= configure_then_install());
    r
}

} // verus!
