use lodge::base::Base;
use lodge::meta::DestProbe;
use lodge::meta::FileKind;
use lodge::meta::Meta;
use lodge::paths::concat_segs;
use lodge::pipeline::outcome_for;
use lodge::pipeline::tally_outcomes;
use lodge::pipeline::Outcome;
use lodge::pipeline::Tally;
use lodge::source::Source;
use std::collections::HashMap;

fn segs(parts: &[&str]) -> Vec<String> {
    parts.iter().map(|s| s.to_string()).collect()
}

fn file_meta(len: u64) -> Meta {
    Meta { kind: FileKind::File, len, readonly: false }
}

fn dir_meta() -> Meta {
    Meta { kind: FileKind::Directory, len: 0, readonly: false }
}

/// One entry of a simulated destination tree.
#[derive(Clone, Debug, PartialEq)]
enum Entry {
    File { len: u64 },
    Symlink(Vec<String>),
}

fn probe(dest: &HashMap<Vec<String>, Entry>, path: &Vec<String>) -> DestProbe {
    match dest.get(path) {
        None => DestProbe::Missing,
        Some(Entry::File { len }) => DestProbe::Present { kind: FileKind::File, len: *len },
        Some(Entry::Symlink(t)) => DestProbe::SymlinkTo(Some(t.clone())),
    }
}

/// Drives the consumer's loop over a simulated destination: plans each
/// source, applies the planned mutation to the map, and tallies outcomes.
fn run_once(
    base: &Base,
    sources: &[(Source, Meta)],
    dest: &mut HashMap<Vec<String>, Entry>,
) -> Tally {
    let mut tally = Tally::new();
    for (src, meta) in sources {
        let dst = concat_segs(&base.path, src.components());
        let pr = probe(dest, &dst);
        let plan = base.build_link(src, Some(*meta), &pr);
        let exec_ok = match &plan {
            Ok(l) => {
                if l.rm {
                    dest.remove(&l.dst);
                }
                dest.insert(l.dst.clone(), Entry::Symlink(l.src.clone()));
                true
            }
            Err(_) => false,
        };
        tally.record(outcome_for(&plan, exec_ok));
    }
    tally
}

fn two_sources() -> (Base, Vec<(Source, Meta)>) {
    let base = Base::new(segs(&["home"]), Some(dir_meta())).unwrap();
    let x = Source::new(
        segs(&["dots", "a", "x.txt"]),
        segs(&["root", "dots", "a", "x.txt"]),
        2,
        false,
    )
    .unwrap();
    let y = Source::new(
        segs(&["dots", "a", "y.txt"]),
        segs(&["root", "dots", "a", "y.txt"]),
        2,
        false,
    )
    .unwrap();
    (base, vec![(x, file_meta(10)), (y, file_meta(5))])
}

#[test]
fn empty_destination_links_everything() {
    let (base, sources) = two_sources();
    let mut dest: HashMap<Vec<String>, Entry> = HashMap::new();
    let tally = run_once(&base, &sources, &mut dest);
    assert_eq!(tally.linked, 2);
    assert_eq!(tally.skipped, 0);
    assert_eq!(
        dest.get(&segs(&["home", "a", "x.txt"])),
        Some(&Entry::Symlink(segs(&["root", "dots", "a", "x.txt"])))
    );
    assert_eq!(
        dest.get(&segs(&["home", "a", "y.txt"])),
        Some(&Entry::Symlink(segs(&["root", "dots", "a", "y.txt"])))
    );
}

#[test]
fn second_run_skips_everything_it_linked() {
    let (base, sources) = two_sources();
    let mut dest: HashMap<Vec<String>, Entry> = HashMap::new();
    let first = run_once(&base, &sources, &mut dest);
    assert_eq!(first.linked, 2);
    assert_eq!(first.skipped, 0);
    let before = dest.clone();
    let second = run_once(&base, &sources, &mut dest);
    assert_eq!(second.linked, 0);
    assert_eq!(second.skipped, first.linked);
    assert_eq!(dest, before);
}

#[test]
fn divergent_file_is_skipped_and_left_untouched() {
    let (base, sources) = two_sources();
    let mut dest: HashMap<Vec<String>, Entry> = HashMap::new();
    dest.insert(segs(&["home", "a", "x.txt"]), Entry::File { len: 3 });
    let only_x = vec![sources[0].clone()];
    let tally = run_once(&base, &only_x, &mut dest);
    assert_eq!(tally.linked, 0);
    assert_eq!(tally.skipped, 1);
    assert_eq!(dest.get(&segs(&["home", "a", "x.txt"])), Some(&Entry::File { len: 3 }));
}

#[test]
fn existing_link_to_source_is_skipped_and_left_unchanged() {
    let (base, sources) = two_sources();
    let mut dest: HashMap<Vec<String>, Entry> = HashMap::new();
    dest.insert(
        segs(&["home", "a", "x.txt"]),
        Entry::Symlink(segs(&["root", "dots", "a", "x.txt"])),
    );
    let only_x = vec![sources[0].clone()];
    let tally = run_once(&base, &only_x, &mut dest);
    assert_eq!(tally.linked, 0);
    assert_eq!(tally.skipped, 1);
    assert_eq!(
        dest.get(&segs(&["home", "a", "x.txt"])),
        Some(&Entry::Symlink(segs(&["root", "dots", "a", "x.txt"])))
    );
}

#[test]
fn matching_file_is_superseded_by_a_link() {
    let (base, sources) = two_sources();
    let mut dest: HashMap<Vec<String>, Entry> = HashMap::new();
    dest.insert(segs(&["home", "a", "x.txt"]), Entry::File { len: 10 });
    let only_x = vec![sources[0].clone()];
    let tally = run_once(&base, &only_x, &mut dest);
    assert_eq!(tally.linked, 1);
    assert_eq!(tally.skipped, 0);
    assert_eq!(
        dest.get(&segs(&["home", "a", "x.txt"])),
        Some(&Entry::Symlink(segs(&["root", "dots", "a", "x.txt"])))
    );
}

#[test]
fn unreadable_source_counts_in_neither_tally() {
    let base = Base::new(segs(&["home"]), Some(dir_meta())).unwrap();
    let src =
        Source::new(segs(&["dots", "x"]), segs(&["root", "dots", "x"]), 1, false).unwrap();
    let plan = base.build_link(&src, None, &DestProbe::Missing);
    let o = outcome_for(&plan, false);
    assert_eq!(o, Outcome::Failed);
    let mut tally = Tally::new();
    tally.record(o);
    assert_eq!(tally.linked, 0);
    assert_eq!(tally.skipped, 0);
}

#[test]
fn failed_execution_counts_in_neither_tally() {
    let base = Base::new(segs(&["home"]), Some(dir_meta())).unwrap();
    let src =
        Source::new(segs(&["dots", "x"]), segs(&["root", "dots", "x"]), 1, false).unwrap();
    let plan = base.build_link(&src, Some(file_meta(1)), &DestProbe::Missing);
    assert!(plan.is_ok());
    let o = outcome_for(&plan, false);
    assert_eq!(o, Outcome::Failed);
}

#[test]
fn tally_outcomes_counts_each_kind() {
    let outcomes = vec![
        Outcome::Linked,
        Outcome::Skipped,
        Outcome::Linked,
        Outcome::Failed,
        Outcome::Skipped,
        Outcome::Linked,
    ];
    let t = tally_outcomes(&outcomes);
    assert_eq!(t.linked, 3);
    assert_eq!(t.skipped, 2);
}

#[test]
fn tally_of_no_outcomes_is_empty() {
    let t = tally_outcomes(&Vec::new());
    assert_eq!(t.linked, 0);
    assert_eq!(t.skipped, 0);
}
