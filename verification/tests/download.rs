use frida_manager::asset::Asset;
use frida_manager::download::{DownloadError, StoredFile};
use std::io::Write;

fn asset(name: &str) -> Asset {
    Asset {
        name: name.to_string(),
        content_type: "application/octet-stream".to_string(),
        download_url: format!("https://example.org/{}", name),
    }
}

fn compressed(content: &[u8]) -> Vec<u8> {
    let mut encoder = xz2::write::XzEncoder::new(Vec::new(), 6);
    encoder.write_all(content).unwrap();
    encoder.finish().unwrap()
}

#[test]
fn a_compressed_asset_is_stored_decoded_under_its_stem() {
    let content = b"\x7fELF the bytes of a server binary".to_vec();
    let body = compressed(&content);
    assert_ne!(body, content);
    let stored = asset("frida-server-1.0-x86.xz").download(body);
    assert_eq!(
        stored,
        Ok(StoredFile { name: "frida-server-1.0-x86".to_string(), content })
    );
}

#[test]
fn a_large_compressed_asset_comes_back_byte_for_byte() {
    let mut content: Vec<u8> = Vec::new();
    let mut x: u32 = 1;
    while content.len() < 300_000 {
        x = x.wrapping_mul(1664525).wrapping_add(1013904223);
        content.push((x >> 24) as u8);
    }
    let stored = asset("frida-server-1.0-x86.xz").download(compressed(&content)).unwrap();
    assert_eq!(stored.content.len(), 300_000);
    assert_eq!(stored.content, content);
}

#[test]
fn a_compressed_asset_of_no_bytes() {
    let stored = asset("empty.xz").download(compressed(b""));
    assert_eq!(stored, Ok(StoredFile { name: "empty".to_string(), content: Vec::new() }));
}

#[test]
fn an_asset_without_the_suffix_is_stored_as_it_came() {
    let body = b"plain bytes".to_vec();
    let stored = asset("frida-server-1.0-x86").download(body.clone());
    assert_eq!(stored, Ok(StoredFile { name: "frida-server-1.0-x86".to_string(), content: body }));
}

#[test]
fn xz_bytes_under_a_plain_name_are_not_decoded() {
    let body = compressed(b"content");
    let stored = asset("frida-server-1.0-x86.bin").download(body.clone());
    assert_eq!(
        stored,
        Ok(StoredFile { name: "frida-server-1.0-x86.bin".to_string(), content: body })
    );
}

#[test]
fn bytes_that_are_no_xz_stream_fail_the_asset() {
    let stored = asset("frida-server-1.0-x86.xz").download(b"<html>not found</html>".to_vec());
    assert_eq!(stored, Err(DownloadError::Decompression));
    assert_eq!(asset("a.xz").download(Vec::new()), Err(DownloadError::Decompression));
}

#[test]
fn a_cut_xz_stream_fails_the_asset() {
    let body = compressed(b"some content that is long enough to be cut in the middle");
    let cut = body[..body.len() / 2].to_vec();
    assert_eq!(asset("a.xz").download(cut), Err(DownloadError::Decompression));
}

#[test]
fn store_goes_by_what_the_bytes_decoded_to() {
    let a = asset("frida-server-1.0-x86.xz");
    assert_eq!(
        a.store(vec![1, 2, 3], Some(vec![9, 8])),
        Ok(StoredFile { name: "frida-server-1.0-x86".to_string(), content: vec![9, 8] })
    );
    assert_eq!(a.store(vec![1, 2, 3], None), Err(DownloadError::Decompression));
    let plain = asset("frida-server-1.0-x86");
    assert_eq!(
        plain.store(vec![1, 2, 3], Some(vec![9, 8])),
        Ok(StoredFile { name: "frida-server-1.0-x86".to_string(), content: vec![1, 2, 3] })
    );
    assert_eq!(
        plain.store(vec![1, 2, 3], None),
        Ok(StoredFile { name: "frida-server-1.0-x86".to_string(), content: vec![1, 2, 3] })
    );
}
