use lib::rustlib::{check_listing, copy_rustlib, ensure_rustlib_is_nonempty, rustlib_candidates, rustlib_destination,
    select_rustlib_source, sync_rustlib, DirEntry, Listing, ListingError};
use lib::steps::Failure;
use lib::steps::{Action, Step};

fn s(x: &str) -> String {
    x.to_string()
}

fn file(name: &str, size: u64) -> DirEntry {
    DirEntry { name: name.as_bytes().to_vec(), is_file: true, size: Ok(size) }
}

fn read(entries: Vec<DirEntry>) -> Listing {
    Listing { entries, error: None }
}

fn full_listing() -> Vec<DirEntry> {
    vec![
        file("libcore-1234.rlib", 10),
        file("liballoc-1234.rlib", 10),
        file("libstd-1234.rlib", 10),
        file("libstd-1234.so", 0),
        file("libcompiler_builtins-99.rlib", 5),
        DirEntry { name: b"libcore-dir.rlib".to_vec(), is_file: false, size: Ok(0) },
    ]
}

#[test]
fn a_complete_standard_library_passes() {
    assert_eq!(ensure_rustlib_is_nonempty("/src", "x86_64-seele", &full_listing()), Ok(()));
    assert_eq!(ensure_rustlib_is_nonempty("/src", "x86_64-unknown-linux-gnu", &full_listing()), Ok(()));
}

#[test]
fn seele_targets_also_need_compiler_builtins() {
    let mut l = full_listing();
    l.remove(4);
    assert_eq!(ensure_rustlib_is_nonempty("/src", "x86_64-unknown-linux-gnu", &l), Ok(()));
    assert_eq!(
        ensure_rustlib_is_nonempty("/src", "x86_64-seele", &l),
        Err(s("rustlib source /src is missing libcompiler_builtins-*.rlib for x86_64-seele"))
    );
}

#[test]
fn an_empty_library_fails() {
    let mut l = full_listing();
    l.push(file("liballoc-5678.rlib", 0));
    assert_eq!(
        ensure_rustlib_is_nonempty("/src", "h", &l),
        Err(s("rustlib source /src/liballoc-5678.rlib is empty; rebuild the h standard library first"))
    );
}

#[test]
fn an_unreadable_library_fails() {
    let mut l = full_listing();
    l.insert(0, DirEntry { name: b"libstd-x.rlib".to_vec(), is_file: true, size: Err(s("denied")) });
    l.insert(0, file("libcore-0.rlib", 0));
    // The core libraries are checked first.
    assert_eq!(
        ensure_rustlib_is_nonempty("/src", "h", &l),
        Err(s("rustlib source /src/libcore-0.rlib is empty; rebuild the h standard library first"))
    );
    l.remove(0);
    assert_eq!(ensure_rustlib_is_nonempty("/src", "h", &l), Err(s("failed to stat /src/libstd-x.rlib: denied")));
}

#[test]
fn rustlib_candidates_in_order() {
    assert_eq!(rustlib_candidates("/r", "h", "t"), vec![
        s("/r/build/h/stage1-std/t/dist/deps"),
        s("/r/build/h/stage1/lib/rustlib/t/lib"),
        s("/r/build/h/stage2/lib/rustlib/t/lib"),
    ]);
    assert_eq!(rustlib_destination("/st", "t"), "/st/lib/rustlib/t/lib");
}

#[test]
fn the_first_existing_candidate_is_taken() {
    let c = rustlib_candidates("/r", "h", "t");
    assert_eq!(select_rustlib_source("ctx: ", "t", &c, &vec![false, true, true]), Ok(c[1].clone()));
    assert_eq!(
        select_rustlib_source("ctx: ", "t", &c, &vec![false, false, false]),
        Err(s("ctx: no rustlib source dir found for t; tried: /r/build/h/stage1-std/t/dist/deps, \
/r/build/h/stage1/lib/rustlib/t/lib, /r/build/h/stage2/lib/rustlib/t/lib"))
    );
}

#[test]
fn sync_copies_every_regular_file() {
    let plan = copy_rustlib("c: ", "/src", "/dst", "h", &read(full_listing()));
    let copy = |n: &str| Step {
        context: s("c: "),
        action: Action::CopyEntry { src_dir: s("/src"), dst_dir: s("/dst"), name: n.as_bytes().to_vec() },
    };
    assert_eq!(plan, vec![
        copy("libcore-1234.rlib"),
        copy("liballoc-1234.rlib"),
        copy("libstd-1234.rlib"),
        copy("libstd-1234.so"),
        copy("libcompiler_builtins-99.rlib"),
        Step { context: s("c: "), action: Action::Print { message: s("installed rustlib for h into /dst") } },
    ]);
}

#[test]
fn sync_stops_on_a_bad_listing() {
    let plan = copy_rustlib("c: ", "/src", "/dst", "h", &read(vec![]));
    assert_eq!(plan, vec![Step {
        context: s("c: "),
        action: Action::Fail { message: s("rustlib source /src is missing libcore-*.rlib for h") },
    }]);
    let plan = copy_rustlib("c: ", "/src", "/dst", "h", &Listing { entries: vec![], error: Some(ListingError::ReadDir(s("gone"))) });
    assert_eq!(plan[0].action, Action::Fail { message: s("failed to read rustlib dir /src: gone") });
    let plan = copy_rustlib("c: ", "/src", "/dst", "h", &Listing { entries: full_listing(), error: Some(ListingError::ReadEntry(s("bad"))) });
    assert_eq!(plan[0].action, Action::Fail { message: s("failed to read entry in /src: bad") });
}

#[test]
fn files_with_names_that_are_not_utf8_are_copied_too() {
    let odd = vec![b'l', b'i', b'b', 0xff, b'.', b'a'];
    let mut l = full_listing();
    l.push(DirEntry { name: odd.clone(), is_file: true, size: Ok(3) });
    // Such a name is no library name: the check is unchanged.
    assert_eq!(ensure_rustlib_is_nonempty("/src", "h", &l), Ok(()));
    let plan = copy_rustlib("c: ", "/src", "/dst", "h", &read(l));
    assert_eq!(plan.len(), 7);
    assert_eq!(plan[5], Step {
        context: s("c: "),
        action: Action::CopyEntry { src_dir: s("/src"), dst_dir: s("/dst"), name: odd },
    });
    let f = lib::steps::Failure::Io(s("e"));
    assert_eq!(plan[5].failure_message(&f), "c: failed to copy /src/lib\u{fffd}.a -> /dst/lib\u{fffd}.a: e");
}

#[test]
fn a_library_name_that_is_not_utf8_does_not_count() {
    let l = vec![
        DirEntry { name: vec![b'l', b'i', b'b', b'c', b'o', b'r', b'e', b'-', 0xfe, b'.', b'r', b'l', b'i', b'b'], is_file: true, size: Ok(4) },
    ];
    assert_eq!(
        ensure_rustlib_is_nonempty("/src", "h", &l),
        Err(s("rustlib source /src is missing libcore-*.rlib for h"))
    );
}

#[test]
fn without_a_source_nothing_is_created() {
    let plan = sync_rustlib("failed to install host rustlib: ", "/r", "h", "/st", "t", &vec![false, false, false], &None);
    assert_eq!(plan, vec![Step {
        context: s("failed to install host rustlib: "),
        action: Action::Fail {
            message: s("no rustlib source dir found for t; tried: /r/build/h/stage1-std/t/dist/deps, \
/r/build/h/stage1/lib/rustlib/t/lib, /r/build/h/stage2/lib/rustlib/t/lib"),
        },
    }]);
    assert_eq!(plan[0].failure_message(&Failure::Missing),
        "failed to install host rustlib: no rustlib source dir found for t; tried: /r/build/h/stage1-std/t/dist/deps, \
/r/build/h/stage1/lib/rustlib/t/lib, /r/build/h/stage2/lib/rustlib/t/lib");
}

#[test]
fn with_a_source_the_destination_is_created_first() {
    let plan = sync_rustlib("c: ", "/r", "h", "/st", "t", &vec![false, true, true], &Some(read(full_listing())));
    assert_eq!(plan.len(), 7);
    assert_eq!(plan[0], Step { context: s("c: "), action: Action::CreateDirAll { path: s("/st/lib/rustlib/t/lib") } });
    assert_eq!(plan[1], Step {
        context: s("c: "),
        action: Action::CopyEntry {
            src_dir: s("/r/build/h/stage1/lib/rustlib/t/lib"),
            dst_dir: s("/st/lib/rustlib/t/lib"),
            name: b"libcore-1234.rlib".to_vec(),
        },
    });
    assert_eq!(plan[6].action, Action::Print { message: s("installed rustlib for t into /st/lib/rustlib/t/lib") });
    let plan = sync_rustlib("c: ", "/r", "h", "/st", "t", &vec![true, false, false],
        &Some(Listing { entries: vec![], error: Some(ListingError::ReadDir(s("gone"))) }));
    assert_eq!(plan, vec![
        Step { context: s("c: "), action: Action::CreateDirAll { path: s("/st/lib/rustlib/t/lib") } },
        Step { context: s("c: "), action: Action::Fail { message: s("failed to read rustlib dir /r/build/h/stage1-std/t/dist/deps: gone") } },
    ]);
}

#[test]
fn a_failed_entry_is_reported_unless_an_earlier_library_fails() {
    let mut entries = full_listing();
    entries.insert(1, file("libcore-0.rlib", 0));
    let broken = Listing { entries, error: Some(ListingError::ReadEntry(s("bad"))) };
    // The empty core library comes before the failed entry.
    assert_eq!(check_listing("/src", "h", &broken),
        Err(s("rustlib source /src/libcore-0.rlib is empty; rebuild the h standard library first")));
    // An empty library of a later stem is never reached.
    let entries = vec![file("libcore-1.rlib", 3), file("liballoc-1.rlib", 0)];
    let broken = Listing { entries, error: Some(ListingError::ReadEntry(s("bad"))) };
    assert_eq!(check_listing("/src", "h", &broken), Err(s("failed to read entry in /src: bad")));
    assert_eq!(check_listing("/src", "h", &read(full_listing())), Ok(()));
    let plan = copy_rustlib("c: ", "/src", "/dst", "h", &broken);
    assert_eq!(plan, vec![Step { context: s("c: "), action: Action::Fail { message: s("failed to read entry in /src: bad") } }]);
}
