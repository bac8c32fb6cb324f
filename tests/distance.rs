use dna_sequence_analysis::aliner::{DiffError, DiffStat, GapPanelty, Score};
use dna_sequence_analysis::reader::FastaReaderError;

fn pair<'a>(r: &'a [u8], q: &'a [u8]) -> DiffStat<'a> {
    DiffStat::new(r, q, GapPanelty::new(-5, -1).unwrap(), Score::new(1, -1))
}

#[test]
fn levenshtein_known_value() {
    let d = pair(b"ACCGTGGAT", b"AAAAACCGTTGAT");
    assert_eq!(d.levenshtein(), 5);
    assert_eq!(d.levenshtein_simd(), 5);
}

#[test]
fn levenshtein_is_symmetric() {
    assert_eq!(pair(b"kitten", b"sitting").levenshtein(), 3);
    assert_eq!(pair(b"sitting", b"kitten").levenshtein(), 3);
    assert_eq!(pair(b"sitting", b"kitten").levenshtein_simd(), 3);
}

#[test]
fn levenshtein_of_equal_and_empty() {
    assert_eq!(pair(b"ACGTACGT", b"ACGTACGT").levenshtein(), 0);
    assert_eq!(pair(b"", b"").levenshtein(), 0);
    assert_eq!(pair(b"", b"ACG").levenshtein(), 3);
    assert_eq!(pair(b"ACG", b"").levenshtein_simd(), 3);
}

#[test]
fn levenshtein_triangle_inequality() {
    let (a, b, c): (&[u8], &[u8], &[u8]) = (b"ACGTTA", b"AGGT", b"TTGA");
    let ab = pair(a, b).levenshtein();
    let bc = pair(b, c).levenshtein();
    let ac = pair(a, c).levenshtein();
    assert!(ac <= ab + bc);
}

#[test]
fn hamming_counts_differences() {
    let d = pair(b"GTCTGCATGCG", b"TTTAGCTAGCG");
    assert_eq!(d.hamming_distance(), Ok(5));
    assert_eq!(d.hamming_distance_simd(), Ok(5));
    assert_eq!(pair(b"ACGT", b"ACGT").hamming_distance(), Ok(0));
    assert_eq!(pair(b"", b"").hamming_distance(), Ok(0));
}

#[test]
fn hamming_rejects_unequal_lengths() {
    assert_eq!(pair(b"ACGT", b"ACG").hamming_distance(), Err(DiffError::LengthMismatch));
    assert_eq!(pair(b"A", b"").hamming_distance_simd(), Err(DiffError::LengthMismatch));
}

#[test]
fn reader_error_detail() {
    let e = FastaReaderError::Generic("no such file".to_string());
    assert_eq!(e.detail(), "no such file");
}
