//! Installing a target's Rust standard library (its `.rlib` files) into the
//! linked stage directory, after checking that it was really built.

use vstd::prelude::*;
use crate::text::{owned, utf8_of, utf8_text, concat4, concat5, has_prefix, has_suffix, has_infix,
    starts_with, ends_with, contains, joined_with, join_with};
use crate::paths::{joined, joined2, joined4, join, join2, join4};
use crate::steps::{Action, ActionModel, Step, StepModel, step, step_model};

verus! {

/// One entry of a directory listing, as far as the check and the copy need it.
#[derive(Debug, PartialEq, Eq)]
pub struct DirEntry {
    /// The file name, as the bytes that the file system holds.
    pub name: Vec<u8>,
    /// Whether the entry is a regular file.
    pub is_file: bool,
    /// The file's size in bytes, or why it could not be read.
    pub size: Result<u64, String>,
}

/// The mathematical model of a [`DirEntry`].
pub struct DirEntryModel {
    pub name: Seq<u8>,
    pub is_file: bool,
    pub size: Result<u64, Seq<char>>,
}

impl DeepView for DirEntry {
    type V = DirEntryModel;

    open spec fn deep_view(&self) -> DirEntryModel {
        DirEntryModel {
            name: self.name@,
            is_file: self.is_file,
            size: match &self.size {
                Ok(n) => Ok(*n),
                Err(e) => Err(e@),
            },
        }
    }
}

/// The name stems of the libraries that a standard library for `triple`
/// must hold: core, alloc and std, and compiler_builtins as well for a
/// Seele target.
pub open spec fn required_prefixes(triple: Seq<char>) -> Seq<Seq<char>> {
    if has_infix(triple, "seele"@) {
        seq!["libcore-"@, "libcompiler_builtins-"@, "liballoc-"@, "libstd-"@]
    } else {
        seq!["libcore-"@, "liballoc-"@, "libstd-"@]
    }
}

/// The entry's file name as text, if it is valid UTF-8.
pub open spec fn entry_name(e: DirEntryModel) -> Option<Seq<char>> {
    utf8_of(e.name)
}

/// Whether the entry is a library file with the name stem `prefix`.
pub open spec fn is_library(e: DirEntryModel, prefix: Seq<char>) -> bool {
    &&& e.is_file
    &&& entry_name(e) is Some
    &&& has_prefix(entry_name(e)->0, prefix)
    &&& has_suffix(entry_name(e)->0, ".rlib"@)
}

/// What the check of one name stem found.
pub enum ScanOutcome {
    /// A library with the stem was found, and none of them is empty.
    Found,
    /// No library with the stem.
    Missing,
    /// The library of this name is empty.
    Empty(Seq<char>),
    /// The size of the library of this name could not be read.
    Unreadable(Seq<char>, Seq<char>),
}

/// Scans `entries` in order for the libraries with the stem `prefix`; the
/// first empty or unreadable one ends the scan; `seen` tells whether one was
/// found before `entries`.
pub open spec fn scan(entries: Seq<DirEntryModel>, prefix: Seq<char>, seen: bool) -> ScanOutcome
    decreases entries.len(),
{
    if entries.len() == 0 {
        if seen {
            ScanOutcome::Found
        } else {
            ScanOutcome::Missing
        }
    } else {
        let e = entries[0];
        if is_library(e, prefix) {
            match e.size {
                Err(why) => ScanOutcome::Unreadable(entry_name(e)->0, why),
                Ok(n) => if n == 0 {
                    ScanOutcome::Empty(entry_name(e)->0)
                } else {
                    scan(entries.skip(1), prefix, true)
                },
            }
        } else {
            scan(entries.skip(1), prefix, seen)
        }
    }
}

/// The message for a stem whose check failed.
pub open spec fn scan_failure(src: Seq<char>, triple: Seq<char>, prefix: Seq<char>, o: ScanOutcome) -> Seq<char> {
    match o {
        ScanOutcome::Found => Seq::empty(),
        ScanOutcome::Missing => "rustlib source "@ + src + " is missing "@ + prefix + "*.rlib for "@ + triple,
        ScanOutcome::Empty(name) => "rustlib source "@ + joined(src, name) + " is empty; rebuild the "@
            + triple + " standard library first"@,
        ScanOutcome::Unreadable(name, why) => "failed to stat "@ + joined(src, name) + ": "@ + why,
    }
}

/// The check of the stems `prefixes` in order: the first that fails gives
/// the error.
pub open spec fn check_prefixes(src: Seq<char>, triple: Seq<char>, entries: Seq<DirEntryModel>, prefixes: Seq<Seq<char>>) -> Result<(), Seq<char>>
    decreases prefixes.len(),
{
    if prefixes.len() == 0 {
        Ok(())
    } else {
        let o = scan(entries, prefixes[0], false);
        if o is Found {
            check_prefixes(src, triple, entries, prefixes.skip(1))
        } else {
            Err(scan_failure(src, triple, prefixes[0], o))
        }
    }
}

/// The check that the listing `entries` of the directory `src` holds a
/// non-empty library for each required stem of `triple`.
pub open spec fn rustlib_check(src: Seq<char>, triple: Seq<char>, entries: Seq<DirEntryModel>) -> Result<(), Seq<char>> {
    check_prefixes(src, triple, entries, required_prefixes(triple))
}

/// Whether the listing has at least one library with the stem `prefix`,
/// and every library with that stem has a size that could be read and is
/// not zero.
pub open spec fn stem_present(entries: Seq<DirEntryModel>, prefix: Seq<char>) -> bool {
    &&& exists|i: int| 0 <= i < entries.len() && is_library(#[trigger] entries[i], prefix)
    &&& forall|i: int| 0 <= i < entries.len() && is_library(#[trigger] entries[i], prefix)
        ==> entries[i].size is Ok && entries[i].size->Ok_0 > 0
}

proof fn lemma_scan(entries: Seq<DirEntryModel>, prefix: Seq<char>, seen: bool)
    ensures
        (scan(entries, prefix, seen) is Found) <==> ({
            &&& (seen || exists|i: int| 0 <= i < entries.len() && is_library(#[trigger] entries[i], prefix))
            &&& forall|i: int| 0 <= i < entries.len() && is_library(#[trigger] entries[i], prefix)
                ==> entries[i].size is Ok && entries[i].size->Ok_0 > 0
        }),
    decreases entries.len(),
{
    if entries.len() > 0 {
        let rest = entries.skip(1);
        lemma_scan(rest, prefix, true);
        lemma_scan(rest, prefix, seen);
        assert forall|i: int| 0 <= i < rest.len() implies #[trigger] rest[i] == entries[i + 1] by {}
        let e = entries[0];
        if is_library(e, prefix) {
            if e.size is Ok && e.size->Ok_0 > 0 {
                if scan(entries, prefix, seen) is Found {
                    assert forall|i: int| 0 <= i < entries.len() && is_library(#[trigger] entries[i], prefix)
                        implies entries[i].size is Ok && entries[i].size->Ok_0 > 0 by {
                        if i > 0 {
                            assert(rest[i - 1] == entries[i]);
                        }
                    }
                } else {
                    if forall|i: int| 0 <= i < entries.len() && is_library(#[trigger] entries[i], prefix)
                        ==> entries[i].size is Ok && entries[i].size->Ok_0 > 0 {
                        assert forall|i: int| 0 <= i < rest.len() && is_library(#[trigger] rest[i], prefix)
                            implies rest[i].size is Ok && rest[i].size->Ok_0 > 0 by {
                            assert(rest[i] == entries[i + 1]);
                        }
                    }
                }
            }
        } else {
            if exists|i: int| 0 <= i < entries.len() && is_library(#[trigger] entries[i], prefix) {
                let i = choose|i: int| 0 <= i < entries.len() && is_library(#[trigger] entries[i], prefix);
                assert(rest[i - 1] == entries[i]);
            }
            if exists|i: int| 0 <= i < rest.len() && is_library(#[trigger] rest[i], prefix) {
                let i = choose|i: int| 0 <= i < rest.len() && is_library(#[trigger] rest[i], prefix);
                assert(rest[i] == entries[i + 1]);
            }
            if forall|i: int| 0 <= i < rest.len() && is_library(#[trigger] rest[i], prefix)
                ==> rest[i].size is Ok && rest[i].size->Ok_0 > 0 {
                assert forall|i: int| 0 <= i < entries.len() && is_library(#[trigger] entries[i], prefix)
                    implies entries[i].size is Ok && entries[i].size->Ok_0 > 0 by {
                    assert(rest[i - 1] == entries[i]);
                }
            }
            if forall|i: int| 0 <= i < entries.len() && is_library(#[trigger] entries[i], prefix)
                ==> entries[i].size is Ok && entries[i].size->Ok_0 > 0 {
                assert forall|i: int| 0 <= i < rest.len() && is_library(#[trigger] rest[i], prefix)
                    implies rest[i].size is Ok && rest[i].size->Ok_0 > 0 by {
                    assert(rest[i] == entries[i + 1]);
                }
            }
        }
    }
}

proof fn lemma_check_prefixes(src: Seq<char>, triple: Seq<char>, entries: Seq<DirEntryModel>, prefixes: Seq<Seq<char>>)
    ensures
        (check_prefixes(src, triple, entries, prefixes) is Ok)
            <==> (forall|k: int| 0 <= k < prefixes.len() ==> stem_present(entries, #[trigger] prefixes[k])),
    decreases prefixes.len(),
{
    if prefixes.len() > 0 {
        let rest = prefixes.skip(1);
        lemma_check_prefixes(src, triple, entries, rest);
        lemma_scan(entries, prefixes[0], false);
        if forall|k: int| 0 <= k < prefixes.len() ==> stem_present(entries, #[trigger] prefixes[k]) {
            assert(stem_present(entries, prefixes[0]));
            assert forall|k: int| 0 <= k < rest.len() implies stem_present(entries, #[trigger] rest[k]) by {
                assert(rest[k] == prefixes[k + 1]);
            }
        }
        if check_prefixes(src, triple, entries, prefixes) is Ok {
            assert forall|k: int| 0 <= k < prefixes.len() implies stem_present(entries, #[trigger] prefixes[k]) by {
                if k > 0 {
                    assert(rest[k - 1] == prefixes[k]);
                }
            }
        }
    }
}

/// The check of a standard library's listing accepts it exactly when, for
/// each library that the target needs, the listing holds at least one
/// `<stem>*.rlib` regular file, and each such file has a size that could be
/// read and is not zero.
pub proof fn law_rustlib_check_exact(src: Seq<char>, triple: Seq<char>, entries: Seq<DirEntryModel>)
    ensures
        (rustlib_check(src, triple, entries) is Ok) <==> (forall|k: int|
            0 <= k < required_prefixes(triple).len() ==> stem_present(entries, #[trigger] required_prefixes(triple)[k])),
{
    lemma_check_prefixes(src, triple, entries, required_prefixes(triple));
}

/// Which libraries a standard library must hold: it passes the check
/// exactly when it holds a non-empty, readable `libcore-*.rlib`,
/// `liballoc-*.rlib` and `libstd-*.rlib`, and, for a triple that names
/// Seele, a `libcompiler_builtins-*.rlib` as well; for any other triple that
/// library is not asked for.
pub proof fn law_required_libraries(src: Seq<char>, triple: Seq<char>, entries: Seq<DirEntryModel>)
    ensures
        (rustlib_check(src, triple, entries) is Ok) <==> {
            &&& stem_present(entries, "libcore-"@)
            &&& stem_present(entries, "liballoc-"@)
            &&& stem_present(entries, "libstd-"@)
            &&& has_infix(triple, "seele"@) ==> stem_present(entries, "libcompiler_builtins-"@)
        },
        !has_infix(triple, "seele"@) ==> (rustlib_check(src, triple, entries) is Ok) == {
            &&& stem_present(entries, "libcore-"@)
            &&& stem_present(entries, "liballoc-"@)
            &&& stem_present(entries, "libstd-"@)
        },
{
    law_rustlib_check_exact(src, triple, entries);
    let ps = required_prefixes(triple);
    if has_infix(triple, "seele"@) {
        assert(ps[0] == "libcore-"@ && ps[1] == "libcompiler_builtins-"@ && ps[2] == "liballoc-"@ && ps[3] == "libstd-"@);
        assert(ps.len() == 4);
        if stem_present(entries, "libcore-"@) && stem_present(entries, "liballoc-"@) && stem_present(entries, "libstd-"@)
            && stem_present(entries, "libcompiler_builtins-"@) {
            assert forall|k: int| 0 <= k < ps.len() implies stem_present(entries, #[trigger] ps[k]) by {
                if k == 0 {} else if k == 1 {} else if k == 2 {} else {}
            }
        }
    } else {
        assert(ps[0] == "libcore-"@ && ps[1] == "liballoc-"@ && ps[2] == "libstd-"@);
        assert(ps.len() == 3);
        if stem_present(entries, "libcore-"@) && stem_present(entries, "liballoc-"@) && stem_present(entries, "libstd-"@) {
            assert forall|k: int| 0 <= k < ps.len() implies stem_present(entries, #[trigger] ps[k]) by {
                if k == 0 {} else if k == 1 {} else {}
            }
        }
    }
}

/// The name stems required for `triple`.
fn required_prefix_names(triple: &str) -> (r: Vec<String>)
    ensures
        r.deep_view() == required_prefixes(triple@),
{
    let r = if contains(triple, "seele") {
        vec![owned("libcore-"), owned("libcompiler_builtins-"), owned("liballoc-"), owned("libstd-")]
    } else {
        vec![owned("libcore-"), owned("liballoc-"), owned("libstd-")]
    };
    assert(r.deep_view() =~= required_prefixes(triple@));
    r
}

/// Whether the entry is a library file with the stem `prefix`.
fn entry_is_library(e: &DirEntry, prefix: &str) -> (r: bool)
    ensures
        r == is_library(e.deep_view(), prefix@),
{
    if !e.is_file {
        return false;
    }
    match utf8_text(e.name.as_slice()) {
        None => false,
        Some(n) => starts_with(n.as_str(), prefix) && ends_with(n.as_str(), ".rlib"),
    }
}

/// The message for a stem whose check failed.
fn scan_failure_message(src: &str, triple: &str, prefix: &str, e: Option<&DirEntry>) -> (r: String)
    requires
        e is Some ==> entry_name(e->0.deep_view()) is Some,
    ensures
        r@ == scan_failure(src@, triple@, prefix@, match e {
            None => ScanOutcome::Missing,
            Some(x) => match x.deep_view().size {
                Err(why) => ScanOutcome::Unreadable(entry_name(x.deep_view())->0, why),
                Ok(_) => ScanOutcome::Empty(entry_name(x.deep_view())->0),
            },
        }),
{
    match e {
        None => {
            let mut r = concat4("rustlib source ", src, " is missing ", prefix);
            r.append("*.rlib for ");
            r.append(triple);
            r
        },
        Some(x) => {
            let name = match utf8_text(x.name.as_slice()) {
                Some(n) => n,
                None => owned(""),
            };
            let path = join(src, name.as_str());
            match &x.size {
                Err(why) => concat4("failed to stat ", path.as_str(), ": ", why.as_str()),
                Ok(_) => concat5("rustlib source ", path.as_str(), " is empty; rebuild the ", triple,
                    " standard library first"),
            }
        },
    }
}

/// Checks that the listing `entries` of the directory `src` holds, for each
/// library that a standard library for `triple` needs (core, alloc, std, and
/// compiler_builtins for a Seele target), at least one `<stem>*.rlib` file,
/// and that none of those files is empty.
pub fn ensure_rustlib_is_nonempty(src: &str, triple: &str, entries: &Vec<DirEntry>) -> (r: Result<(), String>)
    ensures
        match r {
            Ok(()) => rustlib_check(src@, triple@, entries.deep_view()) == Ok::<(), Seq<char>>(()),
            Err(m) => rustlib_check(src@, triple@, entries.deep_view()) == Err::<(), Seq<char>>(m@),
        },
{
    let prefixes = required_prefix_names(triple);
    let ghost all = prefixes.deep_view();
    let ghost es = entries.deep_view();
    let mut p: usize = 0;
    assert(all.skip(0) =~= all);
    while p < prefixes.len()
        invariant
            p <= prefixes.len(),
            all == prefixes.deep_view(),
            all == required_prefixes(triple@),
            es == entries.deep_view(),
            rustlib_check(src@, triple@, es) == check_prefixes(src@, triple@, es, all.skip(p as int)),
        decreases prefixes.len() - p,
    {
        let prefix = prefixes[p].as_str();
        let ghost rest = all.skip(p as int);
        assert(rest[0] == prefix@);
        assert(rest.skip(1) =~= all.skip(p + 1));
        let mut matched = false;
        let mut i: usize = 0;
        assert(es.skip(0) =~= es);
        while i < entries.len()
            invariant
                i <= entries.len(),
                es == entries.deep_view(),
                scan(es, prefix@, false) == scan(es.skip(i as int), prefix@, matched),
                rustlib_check(src@, triple@, es) == check_prefixes(src@, triple@, es, rest),
                rest.len() > 0,
                rest[0] == prefix@,
            decreases entries.len() - i,
        {
            let e = &entries[i];
            assert(es.skip(i as int)[0] == e.deep_view());
            assert(es.skip(i as int).skip(1) =~= es.skip(i + 1));
            if entry_is_library(e, prefix) {
                match &e.size {
                    Err(_) => {
                        return Err(scan_failure_message(src, triple, prefix, Some(e)));
                    },
                    Ok(n) => {
                        if *n == 0 {
                            return Err(scan_failure_message(src, triple, prefix, Some(e)));
                        }
                        matched = true;
                    },
                }
            }
            i = i + 1;
        }
        assert(es.skip(i as int) =~= Seq::<DirEntryModel>::empty());
        if !matched {
            return Err(scan_failure_message(src, triple, prefix, None));
        }
        p = p + 1;
    }
    assert(all.skip(p as int) =~= Seq::<Seq<char>>::empty());
    Ok(())
}

/// The directories where a build of Rust leaves the standard library for
/// `triple`, in the order they are tried.
pub open spec fn rustlib_candidates_spec(rust_dir: Seq<char>, host: Seq<char>, triple: Seq<char>) -> Seq<Seq<char>> {
    let build_dir = joined2(rust_dir, "build"@, host);
    seq![
        joined4(build_dir, "stage1-std"@, triple, "dist"@, "deps"@),
        joined(joined4(build_dir, "stage1"@, "lib"@, "rustlib"@, triple), "lib"@),
        joined(joined4(build_dir, "stage2"@, "lib"@, "rustlib"@, triple), "lib"@),
    ]
}

/// The directories where the build under `rust_dir` for the build host
/// `host` leaves the standard library for `triple`, in the order they are tried.
pub fn rustlib_candidates(rust_dir: &str, host: &str, triple: &str) -> (r: Vec<String>)
    ensures
        r.deep_view() == rustlib_candidates_spec(rust_dir@, host@, triple@),
{
    let build_dir = join2(rust_dir, "build", host);
    let b = build_dir.as_str();
    let s1 = join4(b, "stage1", "lib", "rustlib", triple);
    let s2 = join4(b, "stage2", "lib", "rustlib", triple);
    let r = vec![
        join4(b, "stage1-std", triple, "dist", "deps"),
        join(s1.as_str(), "lib"),
        join(s2.as_str(), "lib"),
    ];
    assert(r.deep_view() =~= rustlib_candidates_spec(rust_dir@, host@, triple@));
    r
}

/// The first of `dirs` whose flag in `exists` is set.
pub open spec fn first_existing(dirs: Seq<Seq<char>>, exists: Seq<bool>) -> Option<Seq<char>>
    decreases dirs.len(),
{
    if dirs.len() == 0 || exists.len() == 0 {
        None
    } else if exists[0] {
        Some(dirs[0])
    } else {
        first_existing(dirs.skip(1), exists.skip(1))
    }
}

/// The message when none of the candidate directories exists.
pub open spec fn no_rustlib_message(triple: Seq<char>, dirs: Seq<Seq<char>>) -> Seq<char> {
    "no rustlib source dir found for "@ + triple + "; tried: "@ + joined_with(dirs, ", "@)
}

/// The directory to take the standard library from: the first candidate
/// that is a directory (`is_dir` tells, candidate by candidate). The error
/// names every candidate tried, after `context`.
pub fn select_rustlib_source(context: &str, triple: &str, candidates: &Vec<String>, is_dir: &Vec<bool>) -> (r: Result<String, String>)
    requires
        candidates.len() == is_dir.len(),
    ensures
        match r {
            Ok(d) => first_existing(candidates.deep_view(), is_dir@) == Some(d@),
            Err(m) => first_existing(candidates.deep_view(), is_dir@) is None
                && m@ == context@ + no_rustlib_message(triple@, candidates.deep_view()),
        },
{
    let ghost ds = candidates.deep_view();
    let mut i: usize = 0;
    assert(ds.skip(0) =~= ds);
    assert(is_dir@.skip(0) =~= is_dir@);
    while i < candidates.len()
        invariant
            i <= candidates.len(),
            candidates.len() == is_dir.len(),
            ds == candidates.deep_view(),
            first_existing(ds, is_dir@) == first_existing(ds.skip(i as int), is_dir@.skip(i as int)),
        decreases candidates.len() - i,
    {
        assert(ds.skip(i as int).skip(1) =~= ds.skip(i + 1));
        assert(is_dir@.skip(i as int).skip(1) =~= is_dir@.skip(i + 1));
        if is_dir[i] {
            return Ok(candidates[i].clone());
        }
        i = i + 1;
    }
    let tried = join_with(candidates, ", ");
    let mut m = concat4(context, "no rustlib source dir found for ", triple, "; tried: ");
    m.append(tried.as_str());
    Err(m)
}

/// The directory that a standard library for `triple` is installed into.
pub open spec fn rustlib_destination_spec(stage_dir: Seq<char>, triple: Seq<char>) -> Seq<char> {
    joined4(stage_dir, "lib"@, "rustlib"@, triple, "lib"@)
}

/// The directory that a standard library for `triple` is installed into.
pub fn rustlib_destination(stage_dir: &str, triple: &str) -> (r: String)
    ensures
        r@ == rustlib_destination_spec(stage_dir@, triple@),
{
    join4(stage_dir, "lib", "rustlib", triple, "lib")
}

/// Why a directory could not be listed.
#[derive(Debug, Clone, PartialEq, Eq)]
pub enum ListingError {
    /// The directory could not be opened, with the reason.
    ReadDir(String),
    /// An entry could not be read, with the reason.
    ReadEntry(String),
}

/// The message for a listing that failed.
pub open spec fn listing_failure(src: Seq<char>, e: ListingError) -> Seq<char> {
    match e {
        ListingError::ReadDir(why) => "failed to read rustlib dir "@ + src + ": "@ + why@,
        ListingError::ReadEntry(why) => "failed to read entry in "@ + src + ": "@ + why@,
    }
}

/// What reading a directory gave: the entries read, in order, and, if the
/// reading failed, why. A directory that could not be opened has no entries;
/// an entry that could not be read ends the entries.
#[derive(Debug, PartialEq, Eq)]
pub struct Listing {
    pub entries: Vec<DirEntry>,
    pub error: Option<ListingError>,
}

/// The mathematical model of a [`Listing`].
pub struct ListingModel {
    pub entries: Seq<DirEntryModel>,
    pub error: Option<ListingError>,
}

impl DeepView for Listing {
    type V = ListingModel;

    open spec fn deep_view(&self) -> ListingModel {
        ListingModel { entries: self.entries.deep_view(), error: self.error }
    }
}

/// The check of the standard library in `src` for `triple` from what reading
/// the directory gave. A complete listing is checked as
/// [`rustlib_check`] says. A directory that could not be opened fails the
/// check at once. When an entry could not be read, the check of the first
/// stem meets the entries before it and then that failure: an empty or
/// unreadable library of that stem among them is reported, and otherwise
/// the failed entry.
pub open spec fn listing_check(src: Seq<char>, triple: Seq<char>, listing: ListingModel) -> Result<(), Seq<char>> {
    match listing.error {
        None => rustlib_check(src, triple, listing.entries),
        Some(e) => {
            let first = required_prefixes(triple)[0];
            let o = scan(listing.entries, first, false);
            match e {
                ListingError::ReadDir(_) => Err(listing_failure(src, e)),
                ListingError::ReadEntry(_) => if o is Empty || o is Unreadable {
                    Err(scan_failure(src, triple, first, o))
                } else {
                    Err(listing_failure(src, e))
                },
            }
        },
    }
}

/// Checks the standard library in `src` for `triple` from what reading the
/// directory gave (see [`listing_check`]).
pub fn check_listing(src: &str, triple: &str, listing: &Listing) -> (r: Result<(), String>)
    ensures
        match r {
            Ok(()) => listing_check(src@, triple@, listing.deep_view()) == Ok::<(), Seq<char>>(()),
            Err(m) => listing_check(src@, triple@, listing.deep_view()) == Err::<(), Seq<char>>(m@),
        },
{
    let why = match &listing.error {
        None => {
            return ensure_rustlib_is_nonempty(src, triple, &listing.entries);
        },
        Some(ListingError::ReadDir(why)) => {
            return Err(concat4("failed to read rustlib dir ", src, ": ", why.as_str()));
        },
        Some(ListingError::ReadEntry(why)) => why,
    };
    let prefixes = required_prefix_names(triple);
    let prefix = prefixes[0].as_str();
    let entries = &listing.entries;
    let ghost es = entries.deep_view();
    let mut matched = false;
    let mut i: usize = 0;
    assert(es.skip(0) =~= es);
    while i < entries.len()
        invariant
            i <= entries.len(),
            es == entries.deep_view(),
            es == listing.deep_view().entries,
            listing.error matches Some(ListingError::ReadEntry(_)),
            prefix@ == required_prefixes(triple@)[0],
            scan(es, prefix@, false) == scan(es.skip(i as int), prefix@, matched),
        decreases entries.len() - i,
    {
        let e = &entries[i];
        assert(es.skip(i as int)[0] == e.deep_view());
        assert(es.skip(i as int).skip(1) =~= es.skip(i + 1));
        if entry_is_library(e, prefix) {
            match &e.size {
                Err(_) => {
                    return Err(scan_failure_message(src, triple, prefix, Some(e)));
                },
                Ok(n) => {
                    if *n == 0 {
                        return Err(scan_failure_message(src, triple, prefix, Some(e)));
                    }
                    matched = true;
                },
            }
        }
        i = i + 1;
    }
    assert(es.skip(i as int) =~= Seq::<DirEntryModel>::empty());
    Err(concat4("failed to read entry in ", src, ": ", why.as_str()))
}

/// The copies of the regular files among `entries`, from `src` to `dst`.
pub open spec fn copy_steps(context: Seq<char>, src: Seq<char>, dst: Seq<char>, entries: Seq<DirEntryModel>) -> Seq<StepModel>
    decreases entries.len(),
{
    if entries.len() == 0 {
        Seq::empty()
    } else {
        let e = entries.last();
        let rest = copy_steps(context, src, dst, entries.drop_last());
        if e.is_file {
            rest.push(step_model(context, ActionModel::CopyEntry { src_dir: src, dst_dir: dst, name: e.name }))
        } else {
            rest
        }
    }
}

/// Every regular file of the listing, whatever bytes its name is made of, is
/// copied: for each one the copies hold a copy of that name from `src` to
/// `dst`, and every copy is of such a file.
pub proof fn law_every_file_is_copied(context: Seq<char>, src: Seq<char>, dst: Seq<char>, entries: Seq<DirEntryModel>)
    ensures
        forall|i: int| 0 <= i < entries.len() && (#[trigger] entries[i]).is_file
            ==> copy_steps(context, src, dst, entries).contains(step_model(context, ActionModel::CopyEntry {
                src_dir: src,
                dst_dir: dst,
                name: entries[i].name,
            })),
        forall|j: int| 0 <= j < copy_steps(context, src, dst, entries).len()
            ==> exists|i: int| 0 <= i < entries.len() && entries[i].is_file
                && #[trigger] copy_steps(context, src, dst, entries)[j] == step_model(context, ActionModel::CopyEntry {
                    src_dir: src,
                    dst_dir: dst,
                    name: entries[i].name,
                }),
    decreases entries.len(),
{
    if entries.len() > 0 {
        let init = entries.drop_last();
        law_every_file_is_copied(context, src, dst, init);
        let rest = copy_steps(context, src, dst, init);
        let all = copy_steps(context, src, dst, entries);
        let e = entries.last();
        let mine = step_model(context, ActionModel::CopyEntry { src_dir: src, dst_dir: dst, name: e.name });
        assert forall|i: int| 0 <= i < entries.len() && (#[trigger] entries[i]).is_file
            implies all.contains(step_model(context, ActionModel::CopyEntry {
                src_dir: src,
                dst_dir: dst,
                name: entries[i].name,
            })) by {
            if i == entries.len() - 1 {
                assert(all[all.len() - 1] == mine);
            } else {
                assert(init[i] == entries[i]);
                let w = step_model(context, ActionModel::CopyEntry { src_dir: src, dst_dir: dst, name: entries[i].name });
                let k = choose|k: int| 0 <= k < rest.len() && rest[k] == w;
                assert(all[k] == w);
            }
        }
        assert forall|j: int| 0 <= j < all.len()
            implies exists|i: int| 0 <= i < entries.len() && entries[i].is_file
                && #[trigger] all[j] == step_model(context, ActionModel::CopyEntry {
                    src_dir: src,
                    dst_dir: dst,
                    name: entries[i].name,
                }) by {
            if j < rest.len() {
                assert(all[j] == rest[j]);
                let i = choose|i: int| 0 <= i < init.len() && init[i].is_file
                    && #[trigger] rest[j] == step_model(context, ActionModel::CopyEntry {
                        src_dir: src,
                        dst_dir: dst,
                        name: init[i].name,
                    });
                assert(entries[i] == init[i]);
            } else {
                assert(entries[entries.len() - 1] == e);
            }
        }
    }
}

/// The steps that install the standard library for `triple` from the
/// directory `src` into `dst`, from what reading `src` gave: the check that
/// the libraries are there and not empty, the copy of every regular file,
/// and the report.
pub open spec fn copy_rustlib_spec(
    context: Seq<char>,
    src: Seq<char>,
    dst: Seq<char>,
    triple: Seq<char>,
    listing: ListingModel,
) -> Seq<StepModel> {
    match listing_check(src, triple, listing) {
        Err(m) => seq![step_model(context, ActionModel::Fail { message: m })],
        Ok(_) => copy_steps(context, src, dst, listing.entries).push(step_model(context, ActionModel::Print {
            message: "installed rustlib for "@ + triple + " into "@ + dst,
        })),
    }
}

/// The steps that install the standard library for `triple` from the
/// directory `src`, whose reading gave `listing`, into `dst`; `context` goes
/// before the message of a step that fails.
pub fn copy_rustlib(context: &str, src: &str, dst: &str, triple: &str, listing: &Listing) -> (r: Vec<Step>)
    ensures
        r.deep_view() == copy_rustlib_spec(context@, src@, dst@, triple@, listing.deep_view()),
{
    match check_listing(src, triple, listing) {
        Err(message) => {
            let ghost m = message@;
            let r = vec![step(context, Action::Fail { message })];
            assert(r.deep_view() =~= seq![step_model(context@, ActionModel::Fail { message: m })]);
            return r;
        },
        Ok(()) => {},
    }
    let entries = &listing.entries;
    let ghost es = entries.deep_view();
    let mut plan: Vec<Step> = Vec::new();
    let mut i: usize = 0;
    assert(plan.deep_view() =~= copy_steps(context@, src@, dst@, es.take(0)));
    while i < entries.len()
        invariant
            i <= entries.len(),
            es == entries.deep_view(),
            plan.deep_view() == copy_steps(context@, src@, dst@, es.take(i as int)),
        decreases entries.len() - i,
    {
        let e = &entries[i];
        assert(es.take(i + 1).drop_last() =~= es.take(i as int));
        assert(es.take(i + 1).last() == e.deep_view());
        if e.is_file {
            let ghost before = plan.deep_view();
            let name = e.name.clone();
            assert(name@ =~= e.name@);
            plan.push(step(context, Action::CopyEntry { src_dir: owned(src), dst_dir: owned(dst), name }));
            assert(plan.deep_view() =~= before.push(step_model(context@, ActionModel::CopyEntry {
                src_dir: src@,
                dst_dir: dst@,
                name: e.name@,
            })));
        }
        i = i + 1;
    }
    assert(es.take(i as int) =~= es);
    let ghost copies = plan.deep_view();
    plan.push(step(context, Action::Print { message: concat4("installed rustlib for ", triple, " into ", dst) }));
    assert(plan.deep_view() =~= copies.push(step_model(context@, ActionModel::Print {
        message: "installed rustlib for "@ + triple@ + " into "@ + dst@,
    })));
    plan
}

/// The whole installation of the standard library for `triple`: find the
/// first candidate directory of the build under `rust_dir` for the build
/// host `host` that is a directory (`is_dir` answers for each candidate, in
/// order); without one, stop and name every candidate. With one, create the
/// destination under `stage_dir`, then check and copy from what reading that
/// source gave (`listing`).
pub open spec fn sync_rustlib_spec(
    context: Seq<char>,
    rust_dir: Seq<char>,
    host: Seq<char>,
    stage_dir: Seq<char>,
    triple: Seq<char>,
    is_dir: Seq<bool>,
    listing: Option<ListingModel>,
) -> Seq<StepModel> {
    let candidates = rustlib_candidates_spec(rust_dir, host, triple);
    let dst = rustlib_destination_spec(stage_dir, triple);
    match first_existing(candidates, is_dir) {
        None => seq![step_model(context, ActionModel::Fail { message: no_rustlib_message(triple, candidates) })],
        Some(src) => seq![step_model(context, ActionModel::CreateDirAll { path: dst })]
            + copy_rustlib_spec(context, src, dst, triple, listing.unwrap()),
    }
}

/// The listing as the plan's contract reads it.
pub open spec fn listing_view(listing: &Option<Listing>) -> Option<ListingModel> {
    match listing {
        Some(l) => Some(l.deep_view()),
        None => None,
    }
}

/// The steps that install the standard library for `triple` from the build
/// under `rust_dir` for the build host `host` into the stage `stage_dir`.
/// `is_dir` tells, candidate by candidate in the order of
/// [`rustlib_candidates`], whether it is a directory; `listing` is what
/// reading the first that is gave, and is needed only when there is one.
pub fn sync_rustlib(
    context: &str,
    rust_dir: &str,
    host: &str,
    stage_dir: &str,
    triple: &str,
    is_dir: &Vec<bool>,
    listing: &Option<Listing>,
) -> (r: Vec<Step>)
    requires
        is_dir.len() == 3,
        first_existing(rustlib_candidates_spec(rust_dir@, host@, triple@), is_dir@) is Some ==> listing is Some,
    ensures
        r.deep_view() == sync_rustlib_spec(context@, rust_dir@, host@, stage_dir@, triple@, is_dir@, listing_view(listing)),
{
    let candidates = rustlib_candidates(rust_dir, host, triple);
    let dst = rustlib_destination(stage_dir, triple);
    proof {
        reveal_strlit("");
    }
    match select_rustlib_source("", triple, &candidates, is_dir) {
        Err(message) => {
            let ghost m = message@;
            let r = vec![step(context, Action::Fail { message })];
            assert(r.deep_view() =~= seq![step_model(context@, ActionModel::Fail { message: m })]);
            r
        },
        Ok(src) => {
            let read = match listing {
                Some(l) => l,
                None => return Vec::new(),
            };
            let mut plan = vec![step(context, Action::CreateDirAll { path: dst.clone() })];
            let mut rest = copy_rustlib(context, src.as_str(), dst.as_str(), triple, read);
            let ghost first = plan.deep_view();
            let ghost tail = rest.deep_view();
            assert(first =~= seq![step_model(context@, ActionModel::CreateDirAll { path: dst@ })]);
            plan.append(&mut rest);
            assert(plan.deep_view() =~= first + tail);
            plan
        },
    }
}

/// No destination is created unless a source directory was found. Without
/// one the plan is a single stop; with one, creating the destination comes
/// first and is the only creation of a directory in the plan.
pub proof fn law_destination_only_after_source(
    context: Seq<char>,
    rust_dir: Seq<char>,
    host: Seq<char>,
    stage_dir: Seq<char>,
    triple: Seq<char>,
    is_dir: Seq<bool>,
    listing: Option<ListingModel>,
)
    requires
        first_existing(rustlib_candidates_spec(rust_dir, host, triple), is_dir) is Some ==> listing is Some,
    ensures
        ({
            let plan = sync_rustlib_spec(context, rust_dir, host, stage_dir, triple, is_dir, listing);
            let found = first_existing(rustlib_candidates_spec(rust_dir, host, triple), is_dir) is Some;
            &&& !found ==> plan.len() == 1 && plan[0].action is Fail
            &&& found ==> plan[0] == step_model(context, ActionModel::CreateDirAll {
                path: rustlib_destination_spec(stage_dir, triple),
            })
            &&& forall|i: int| 1 <= i < plan.len() ==> !(#[trigger] plan[i].action is CreateDirAll)
        }),
{
    let candidates = rustlib_candidates_spec(rust_dir, host, triple);
    let plan = sync_rustlib_spec(context, rust_dir, host, stage_dir, triple, is_dir, listing);
    if let Some(src) = first_existing(candidates, is_dir) {
        let dst = rustlib_destination_spec(stage_dir, triple);
        let read = listing.unwrap();
        let tail = copy_rustlib_spec(context, src, dst, triple, read);
        assert forall|i: int| 1 <= i < plan.len() implies !(#[trigger] plan[i].action is CreateDirAll) by {
            assert(plan[i] == tail[i - 1]);
            if listing_check(src, triple, read) is Ok {
                let copies = copy_steps(context, src, dst, read.entries);
                if i - 1 < copies.len() {
                    law_every_file_is_copied(context, src, dst, read.entries);
                    assert(tail[i - 1] == copies[i - 1]);
                }
            }
        }
    }
}

/// Nothing is copied from a directory whose reading failed: the steps are
/// then a single stop.
pub proof fn law_failed_listing_copies_nothing(context: Seq<char>, src: Seq<char>, dst: Seq<char>, triple: Seq<char>, listing: ListingModel)
    requires
        listing.error is Some,
    ensures
        copy_rustlib_spec(context, src, dst, triple, listing).len() == 1,
        copy_rustlib_spec(context, src, dst, triple, listing)[0].action is Fail,
{
}

} // verus!
