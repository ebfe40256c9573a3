use audiocloud::helpers::{
    cached_path, decimal_string, display_name, hash_sample, remove_brackets, strip_wav_suffix,
};
use audiocloud::request::{escape_path, normalize_server_url, packs_url, sample_url, search_url};
use audiocloud::waveform::{bucket_bounds, ARRAYLEN};

#[test]
fn remove_brackets_drops_bracketed_parts() {
    assert_eq!(remove_brackets("Kick [A].wav"), "Kick .wav");
    assert_eq!(remove_brackets("a[b]c[d]e"), "ace");
    assert_eq!(remove_brackets("no brackets"), "no brackets");
    assert_eq!(remove_brackets(""), "");
    assert_eq!(remove_brackets("open [never closed"), "open ");
    assert_eq!(remove_brackets("stray ] bracket"), "stray  bracket");
}

#[test]
fn decimal_string_renders_digits() {
    assert_eq!(decimal_string(0), "0");
    assert_eq!(decimal_string(7), "7");
    assert_eq!(decimal_string(10), "10");
    assert_eq!(decimal_string(1234567890), "1234567890");
    assert_eq!(decimal_string(u64::MAX), u64::MAX.to_string());
}

#[test]
fn strip_wav_suffix_takes_one_suffix_off() {
    assert_eq!(strip_wav_suffix("kick.wav"), "kick");
    assert_eq!(strip_wav_suffix("kick"), "kick");
    assert_eq!(strip_wav_suffix("a.wav.wav"), "a.wav");
    assert_eq!(strip_wav_suffix(".wav"), "");
    assert_eq!(strip_wav_suffix("wav"), "wav");
}

#[test]
fn hash_sample_ignores_wav_extension() {
    assert_eq!(hash_sample("kick.wav"), hash_sample("kick"));
    assert_eq!(hash_sample("Kick [A].wav"), hash_sample("Kick [A]"));
}

#[test]
fn hash_sample_is_stable_and_decimal() {
    let a = hash_sample("drums/kick.wav");
    let b = hash_sample("drums/kick.wav");
    assert_eq!(a, b);
    assert!(!a.is_empty());
    assert!(a.chars().all(|c| c.is_ascii_digit()));
    assert_eq!(a, xxhash_rust::xxh3::xxh3_64(b"drums/kick").to_string());
}

#[test]
fn hash_sample_differs_for_different_paths() {
    assert_ne!(hash_sample("kick"), hash_sample("snare"));
    assert_ne!(hash_sample("kick"), "kick");
}

#[test]
fn cached_path_names_the_hash() {
    let p = cached_path("Kick [A].wav");
    assert_eq!(p, format!("cached/{}.wav", hash_sample("Kick [A].wav")));
    assert!(p.starts_with("cached/"));
    assert!(p.ends_with(".wav"));
}

#[test]
fn display_name_cleans_sample_names() {
    assert_eq!(display_name("Kick_Hard [A].wav"), "Kick Hard ");
    assert_eq!(display_name("loop.wav_take.wav"), "loop take");
    assert_eq!(display_name("plain"), "plain");
    assert_eq!(display_name(""), "");
}

#[test]
fn escape_path_escapes_hash_and_space() {
    assert_eq!(escape_path("a b#c"), "a%20b%23c");
    assert_eq!(escape_path("plain/path.wav"), "plain/path.wav");
    assert_eq!(escape_path(""), "");
}

#[test]
fn urls_are_built_from_the_server_url() {
    let base = "http://127.0.0.1:4040/";
    assert_eq!(
        sample_url(base, "Drums/Kick #1.wav"),
        "http://127.0.0.1:4040/samples/Drums/Kick%20%231.wav"
    );
    assert_eq!(search_url(base), "http://127.0.0.1:4040/search");
    assert_eq!(packs_url(base), "http://127.0.0.1:4040/packs");
}

#[test]
fn normalize_server_url_appends_one_slash() {
    assert_eq!(normalize_server_url("http://host:1".to_string()), "http://host:1/");
    assert_eq!(normalize_server_url("http://host:1/".to_string()), "http://host:1/");
    assert_eq!(normalize_server_url(String::new()), "/");
}

fn envelope(buffer: &[f32], buckets: usize) -> Vec<f32> {
    bucket_bounds(buffer.len(), buckets)
        .into_iter()
        .map(|(s, e)| {
            if e == s {
                0.0
            } else {
                let sum: f32 = buffer[s..e].iter().map(|v| v * v).sum();
                (sum / (e - s) as f32).sqrt()
            }
        })
        .collect()
}

#[test]
fn bucket_bounds_split_evenly() {
    let b = bucket_bounds(2 * ARRAYLEN + 5, ARRAYLEN);
    assert_eq!(b.len(), ARRAYLEN);
    for (i, &(s, e)) in b.iter().enumerate() {
        assert_eq!((s, e), (2 * i, 2 * i + 2));
    }
    assert_eq!(bucket_bounds(10, 3), vec![(0, 3), (3, 6), (6, 9)]);
}

#[test]
fn bucket_bounds_short_buffer_gives_empty_windows() {
    let b = bucket_bounds(5, ARRAYLEN);
    assert_eq!(b.len(), ARRAYLEN);
    assert!(b.iter().all(|&(s, e)| s == 0 && e == 0));
    let env = envelope(&[0.5; 5], ARRAYLEN);
    assert!(env.iter().all(|&v| v == 0.0));
}

#[test]
fn envelope_of_constant_buffer_is_its_magnitude() {
    let env = envelope(&vec![-0.25f32; ARRAYLEN], ARRAYLEN);
    assert!(env.iter().all(|&v| (v - 0.25).abs() < 1e-6));
}

#[test]
fn envelope_of_alternating_buffer_is_amplitude() {
    let buffer: Vec<f32> = (0..4 * ARRAYLEN).map(|i| if i % 2 == 0 { 0.5 } else { -0.5 }).collect();
    let env = envelope(&buffer, ARRAYLEN);
    assert!(env.iter().all(|&v| (v - 0.5).abs() < 1e-6));
}
