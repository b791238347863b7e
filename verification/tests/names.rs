//! File names: the digest of a key, written in the URL-safe alphabet.

use bt_file_cache::cache::BTCache;
use bt_file_cache::encoding::file_name_of_digest;
use sha3::Digest;

fn is_safe(c: char) -> bool {
    c.is_ascii_alphanumeric() || c == '-' || c == '_'
}

#[test]
fn known_keys_have_known_names() {
    let cases = [
        (
            "https://avatars.githubusercontent.com/u/188628667?v=4",
            "Pe2MEfGkJXVt54yoLZ2ziRh9v4fGIJcRWQE98MtwcYTSNgJyE4ec6lZ4tSdolTCN9SA-wVrhmtP-8HJ-7jVWGg",
        ),
        (
            "file1",
            "S6ZZaVaoYQsQDYaR7piO7byg3ThvoCZk4Gg4GWCVxac-qy1RvtBWTmdbS0OeEhJMviRfOG7fsVqGQcPoGIVD-w",
        ),
        (
            "https://www.google.com/s2/favicons?sz=64&domain=quora.com",
            "JV0VrQPUrmKposXxQFD0TwLbPHK1fQb_hOouSb3BvaG-xqIm_Lw9GKyCyTvVDlc2v29sT-5lQgytuJbEVv2eyA",
        ),
        (
            "",
            "pp9zzKI6msXItWfcGFp1bpfJghZP4lhZ4NHcwUdcgKYVshI68fX5TBHj6UAsOsVY9QAZnZW20-MBdYWGKB3NJg",
        ),
        (
            "abc",
            "t1GFCxpXFopWk82SS2sJbgj2IYJ0RPcNiE9dAkDScS4Q4RbpGSrzyRp-xXZH45NAVzQLTPQI1aVlkvgnTuxT8A",
        ),
        (
            "cl\u{e9}/\u{43a}\u{43b}\u{44e}\u{447}?q=1",
            "47YT_IXgZtZd8XQE_zbBUPAZ82o_GEITJZKKpU6nlTqzOPtsMmL3GSzbfV1h9IjanU9woM5ufWyp64gCfcrwhw",
        ),
    ];
    for (key, name) in cases {
        assert_eq!(BTCache::get_hash_string_base64(key), name);
    }
}

#[test]
fn names_are_stable_across_calls() {
    let key = "https://example.com/a.png?size=64&theme=dark";
    let first = BTCache::get_hash_string_base64(key);
    let second = BTCache::get_hash_string_base64(key);
    assert_eq!(first, second);
    assert_eq!(
        BTCache::get_hash_string_base64("https://example.com/a.png"),
        "8Fklrd28j2_43u8xJvm0oGyARElGD2eTauNGyLNSA93XLZyl4tjVoPT84jzOU1uNeDwavaXbzH_flWvsf6LSMw"
    );
}

#[test]
fn distinct_keys_have_distinct_names() {
    let keys = ["a", "b", "A", "a ", " a", "a/", "https://x/a", "https://x/a?", "https://x/A", ""];
    for (i, first) in keys.iter().enumerate() {
        for second in &keys[i + 1..] {
            assert_ne!(
                BTCache::get_hash_string_base64(first),
                BTCache::get_hash_string_base64(second)
            );
        }
    }
}

#[test]
fn names_hold_no_separator_and_no_reserved_character() {
    let keys = [
        "",
        "/",
        "../../etc/passwd",
        "C:\\Users\\me\\file.txt",
        "https://example.com/a/b/c?x=1&y=2#frag",
        "key with spaces\tand\nnewlines\0and nul",
        "\u{65e5}\u{672c}\u{8a9e}/\u{1f600}",
        "*?\"<>|:.",
    ];
    for key in keys {
        let name = BTCache::get_hash_string_base64(key);
        assert_eq!(name.chars().count(), 86);
        assert_eq!(name.len(), 86);
        assert!(name.chars().all(is_safe), "{}", name);
        assert!(!name.contains('='));
    }
}

#[test]
fn the_name_is_the_text_of_the_digest() {
    let zeros = [0u8; 64];
    assert_eq!(file_name_of_digest(&zeros), "A".repeat(86));

    let mut ones = [0xFFu8; 64];
    let mut expected = "_".repeat(85);
    expected.push('w');
    assert_eq!(file_name_of_digest(&ones), expected);

    ones[0] = 0xFB;
    let mut expected = "-".to_owned();
    expected.push_str(&"_".repeat(84));
    expected.push('w');
    assert_eq!(file_name_of_digest(&ones), expected);

    let mut counting = [0u8; 64];
    for (i, b) in counting.iter_mut().enumerate() {
        *b = i as u8;
    }
    assert_eq!(
        file_name_of_digest(&counting),
        "AAECAwQFBgcICQoLDA0ODxAREhMUFRYXGBkaGxwdHh8gISIjJCUmJygpKissLS4vMDEyMzQ1Njc4OTo7PD0-Pw"
    );
}

#[test]
fn the_name_follows_the_digest_of_the_key() {
    for key in ["", "abc", "https://example.com/a.png"] {
        let digest: [u8; 64] = sha3::Sha3_512::digest(key.as_bytes()).into();
        assert_eq!(BTCache::get_hash_string_base64(key), file_name_of_digest(&digest));
    }
    let digest: [u8; 64] = sha3::Sha3_512::digest(b"abc").into();
    assert_eq!(digest[..4], [0xb7, 0x51, 0x85, 0x0b]);
}
