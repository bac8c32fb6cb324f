use dna_sequence_analysis::aliner::{all_ascii, DiffError, DiffStat, GapPanelty, Score};

#[test]
fn gap_penalty_rejects_non_negative() {
    assert_eq!(GapPanelty::new(0, -1), Err(DiffError::ConfigurationError));
    assert_eq!(GapPanelty::new(-1, 0), Err(DiffError::ConfigurationError));
    assert_eq!(GapPanelty::new(3, 2), Err(DiffError::ConfigurationError));
    assert_eq!(GapPanelty::new(-5, 1), Err(DiffError::ConfigurationError));
}

#[test]
fn gap_penalty_accepts_negative() {
    let g = GapPanelty::new(-5, -1).unwrap();
    assert_eq!(g.open, -5);
    assert_eq!(g.extend, -1);
}

#[test]
fn score_of_symbols() {
    let s: Score = (2, -3).into();
    assert_eq!(s.match_score(), 2);
    assert_eq!(s.miss_match(), -3);
    assert_eq!(s.score(b'A', b'A'), 2);
    assert_eq!(s.score(b'A', b'C'), -3);
    assert_eq!(Score::new(2, -3), s);
}

fn pair<'a>(r: &'a str, q: &'a str) -> DiffStat<'a> {
    DiffStat::new(r.as_bytes(), q.as_bytes(), GapPanelty::new(-5, -1).unwrap(), Score::new(1, -1))
}

#[test]
fn global_alignment_of_equal_sequences() {
    let mut d = pair("ACGTACGT", "ACGTACGT");
    assert!(d.alignment().is_none());
    d.pairwise_aligner_global();
    let a = d.alignment().unwrap();
    assert_eq!(a.score, 8);
    assert_eq!(a.operations.len(), 8);
    assert_eq!((a.xstart, a.xend, a.ystart, a.yend), (0, 8, 0, 8));
}

#[test]
fn global_alignment_of_empty_sequences() {
    let mut d = pair("", "");
    d.pairwise_aligner_global();
    let a = d.alignment().unwrap();
    assert_eq!(a.score, 0);
    assert!(a.operations.is_empty());
}

#[test]
fn global_score_at_most_local_score() {
    let cases = [
        ("CCGTCCGGCAAGGG", "AAAAACCGTTGACGGCCAA"),
        ("TTTTACGTACGTTTTT", "GGACGTACGGG"),
        ("ACGT", "TGCA"),
        ("", "ACG"),
    ];
    for (r, q) in cases {
        let mut g = pair(r, q);
        g.pairwise_aligner_global();
        let mut l = pair(r, q);
        l.pairwise_aligner_local();
        assert!(g.alignment().unwrap().score <= l.alignment().unwrap().score);
    }
}

#[test]
fn semiglobal_alignment_ignores_overhang() {
    let mut d = pair("ACGT", "TTTACGTTTT");
    d.pairwise_aligner_semiglobal();
    let a = d.alignment().unwrap();
    assert_eq!(a.score, 4);
    assert_eq!(a.operations.len(), 4);
    assert_eq!((a.ystart, a.yend), (3, 7));
}

#[test]
fn local_alignment_finds_common_core() {
    let mut d = pair("TTTTACGTACGTTTTT", "GGACGTACGGG");
    d.pairwise_aligner_local();
    let a = d.alignment().unwrap();
    assert_eq!(a.score, 7);
    assert_eq!((a.xstart, a.xend), (4, 11));
    assert_eq!((a.ystart, a.yend), (2, 9));
}

#[test]
fn alignment_is_repeatable() {
    let mut d1 = pair("CCGTCCGGCAAGGG", "AAAAACCGTTGACGGCCAA");
    let mut d2 = pair("CCGTCCGGCAAGGG", "AAAAACCGTTGACGGCCAA");
    d1.pairwise_aligner_global();
    d2.pairwise_aligner_global();
    assert_eq!(d1.alignment(), d2.alignment());
    d1.pairwise_aligner_global();
    assert_eq!(d1.alignment(), d2.alignment());
    assert_eq!(d1.pretty_string(10), d2.pretty_string(10));
}

#[test]
fn pretty_string_needs_alignment_and_width() {
    let mut d = pair("ACGT", "ACGA");
    assert_eq!(d.pretty_string(80), None);
    d.pairwise_aligner_global();
    assert_eq!(d.pretty_string(0), None);
    assert_eq!(d.pretty_string(80).unwrap(), "ACGT\n|||\\\nACGA\n\n\n");
    assert_eq!(d.pretty_string(2).unwrap(), "AC\n||\nAC\n\n\nGT\n|\\\nGA\n\n\n");
}

#[test]
fn pretty_string_rejects_non_ascii() {
    let r = [0xC3u8, 0xA9];
    let q = [0xC3u8, 0xA9];
    let mut d = DiffStat::new(&r, &q, GapPanelty::new(-5, -1).unwrap(), Score::new(1, -1));
    d.pairwise_aligner_global();
    assert_eq!(d.pretty_string(80), None);
    assert!(!all_ascii(&r));
    assert!(all_ascii(b"ACGT"));
}

#[test]
fn poa_of_seed_alone() {
    let d = pair("ACGT", "ACGT");
    let a = d.partial_order_alignment(GapPanelty::new(-1, -1).unwrap(), Score::new(1, -1), None).unwrap();
    assert_eq!(a.score, 4);
    let b = d.partial_order_alignment(GapPanelty::new(-1, -1).unwrap(), Score::new(2, -1), Some(vec![])).unwrap();
    assert_eq!(b.score, 8);
}

#[test]
fn poa_with_extra_references() {
    let d = pair("ACGT", "ACCT");
    let refs = vec![b"ACCT".to_vec(), b"AGGT".to_vec()];
    let a = d.partial_order_alignment(GapPanelty::new(-1, -1).unwrap(), Score::new(1, -1), Some(refs)).unwrap();
    assert_eq!(a.score, 4);
    let b = d.partial_order_alignment(GapPanelty::new(-1, -1).unwrap(), Score::new(1, -1), None).unwrap();
    assert_eq!(b.score, 2);
}

#[test]
fn accessors_return_inputs() {
    let d = pair("ACGT", "TT");
    assert_eq!(d.reference(), b"ACGT");
    assert_eq!(d.query(), b"TT");
}

#[test]
fn poa_is_repeatable() {
    let d = pair("ACGTTGCA", "ACGATGCA");
    let refs = vec![b"ACCTTGCA".to_vec()];
    let a = d.partial_order_alignment(GapPanelty::new(-2, -1).unwrap(), Score::new(1, -1), Some(refs.clone()));
    let b = d.partial_order_alignment(GapPanelty::new(-2, -1).unwrap(), Score::new(1, -1), Some(refs));
    assert!(a.is_some());
    assert_eq!(a, b);
}

#[test]
fn poa_without_and_with_empty_reference_list_agree() {
    let d = pair("ACGT", "AGT");
    let a = d.partial_order_alignment(GapPanelty::new(-2, -1).unwrap(), Score::new(1, -1), None);
    let b = d.partial_order_alignment(GapPanelty::new(-2, -1).unwrap(), Score::new(1, -1), Some(vec![]));
    assert!(a.is_some());
    assert_eq!(a, b);
}

#[test]
fn poa_of_empty_seed_is_none() {
    let d = pair("", "ACGT");
    let a = d.partial_order_alignment(GapPanelty::new(-1, -1).unwrap(), Score::new(1, -1), None);
    assert!(a.is_none());
    let b = d.partial_order_alignment(GapPanelty::new(-1, -1).unwrap(), Score::new(1, -1), Some(vec![b"AC".to_vec()]));
    assert!(b.is_none());
}

#[test]
fn global_alignment_spans_both_sequences() {
    let mut d = pair("CCGTCCGGCAAGGG", "AAAAACCGTTGACGGCCAA");
    d.pairwise_aligner_global();
    let a = d.alignment().unwrap();
    assert_eq!((a.xstart, a.ystart, a.xend, a.yend), (0, 0, 14, 19));
    assert!(a.operations.iter().all(|op| !matches!(
        op,
        bio::alignment::AlignmentOperation::Xclip(_) | bio::alignment::AlignmentOperation::Yclip(_)
    )));
}
