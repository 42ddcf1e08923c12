use fsel::enumerate::{split_keys, DirEnumerator, ListedKey};
use fsel::error::FsError;

fn page(keys: &[&[u8]]) -> (Vec<u64>, Vec<u8>) {
    let mut lens = Vec::new();
    let mut buf = Vec::new();
    for k in keys {
        lens.push(k.len() as u64);
        buf.extend_from_slice(k);
    }
    (lens, buf)
}

fn names(v: &[ListedKey]) -> Vec<(u64, Vec<u8>)> {
    v.iter().map(|k| (k.index, k.name.clone())).collect()
}

#[test]
fn split_keys_cuts_buffer() {
    let (lens, mut buf) = page(&[b"ab", b"", b"cde"]);
    buf.extend_from_slice(&[0; 10]);
    let keys = split_keys(&lens, &buf).unwrap();
    assert_eq!(keys, vec![b"ab".to_vec(), Vec::new(), b"cde".to_vec()]);
}

#[test]
fn split_keys_rejects_overrun() {
    let lens = vec![2, 5];
    let buf = b"abcdef".to_vec();
    assert_eq!(split_keys(&lens, &buf), Err(FsError::Io));
}

fn run(pages: &[Vec<&[u8]>], offset: i64) -> Vec<(u64, Vec<u8>)> {
    let mut e = DirEnumerator::new(offset);
    let mut out = Vec::new();
    for p in pages {
        let (lens, buf) = page(p);
        out.extend(names(&e.accept_page(&lens, &buf).unwrap()));
    }
    out
}

#[test]
fn enumeration_spans_pages_in_order() {
    let keys: Vec<&[u8]> = vec![b"a", b"b", b"c", b"d", b"e"];
    let expected: Vec<(u64, Vec<u8>)> =
        keys.iter().enumerate().map(|(i, k)| (i as u64, k.to_vec())).collect();
    assert_eq!(run(&[keys.clone()], 0), expected);
    assert_eq!(run(&[keys[..2].to_vec(), keys[2..].to_vec()], 0), expected);
    assert_eq!(
        run(&[keys[..1].to_vec(), Vec::new(), keys[1..4].to_vec(), keys[4..].to_vec()], 0),
        expected
    );
}

#[test]
fn enumeration_resumes_at_offset() {
    let keys: Vec<&[u8]> = vec![b"a", b"b", b"c", b"d", b"e"];
    for m in 0..=5 {
        let expected: Vec<(u64, Vec<u8>)> = keys
            .iter()
            .enumerate()
            .skip(m)
            .map(|(i, k)| (i as u64, k.to_vec()))
            .collect();
        assert_eq!(run(&[keys[..2].to_vec(), keys[2..].to_vec()], m as i64), expected);
        assert_eq!(run(&[keys[..3].to_vec(), keys[3..].to_vec()], m as i64), expected);
    }
    assert_eq!(run(&[keys.clone()], -4).len(), 5);
    assert_eq!(run(&[keys.clone()], 9).len(), 0);
}

#[test]
fn enumeration_fault_keeps_state() {
    let mut e = DirEnumerator::new(0);
    assert_eq!(e.accept_page(&vec![4], &b"ab".to_vec()).unwrap_err(), FsError::Io);
    let (lens, buf) = page(&[b"x"]);
    assert_eq!(names(&e.accept_page(&lens, &buf).unwrap()), vec![(0, b"x".to_vec())]);
}
