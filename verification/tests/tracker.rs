use cloud::phase::Phase;
use cloud::tracker::{check_path, is_phase_complete, marker_paths, pair_dir, phase_dir, PathProbe, Probe};

fn probe(dir_ok: bool, bmon: bool, udping: bool) -> Probe {
    Probe { dir_ok, bmon, udping }
}

#[test]
fn output_layout() {
    assert_eq!(pair_dir("aws_useast1", "az_westus"), "./aws_useast1-az_westus");
    assert_eq!(phase_dir("A", "B", Phase::Control), "./A-B/control");
    assert_eq!(phase_dir("A", "B", Phase::Iperf), "./A-B/iperf");
    assert_eq!(phase_dir("A", "B", Phase::Bundler), "./A-B/bundler");
    let (bmon, udping) = marker_paths("./A-B/control");
    assert_eq!(bmon, "./A-B/control/bmon.log");
    assert_eq!(udping, "./A-B/control/udping.log");
}

#[test]
fn phase_is_complete_only_with_both_markers() {
    assert!(is_phase_complete(&probe(true, true, true)));
    assert!(!is_phase_complete(&probe(true, true, false)));
    assert!(!is_phase_complete(&probe(true, false, true)));
    assert!(!is_phase_complete(&probe(true, false, false)));
    // nothing but the two files is consulted
    assert!(is_phase_complete(&probe(false, true, true)));
}

#[test]
fn check_path_asks_for_all_six_markers() {
    let done = probe(true, true, true);
    let all = PathProbe { control: done, iperf: done, bundler: done };
    assert!(!check_path(&all));
    for which in 0..3 {
        for missing in [probe(true, false, true), probe(true, true, false), probe(false, true, true)] {
            let mut p = all;
            match which {
                0 => p.control = missing,
                1 => p.iperf = missing,
                _ => p.bundler = missing,
            }
            assert!(check_path(&p));
        }
    }
    let none = probe(true, false, false);
    assert!(check_path(&PathProbe { control: none, iperf: none, bundler: none }));
}
