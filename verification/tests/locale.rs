use lit_sink_nexus::locale::{init_i18n, user_preferred_languages};

fn units(text: &str) -> Vec<u16> {
    text.encode_utf16().collect()
}

fn buffer(text: &str) -> [u16; 128] {
    let mut b = [0u16; 128];
    for (i, u) in text.encode_utf16().enumerate() {
        b[i] = u;
    }
    b
}

fn reference(buffer: &[u16], used: u32, count: u32) -> Vec<Vec<u16>> {
    buffer[..used as usize]
        .split(|&c| c == 0)
        .take(count as usize)
        .map(|piece| piece.to_vec())
        .collect()
}

#[test]
fn two_languages() {
    let b = buffer("en-US\0zh-CN\0\0");
    assert_eq!(user_preferred_languages(&b, 13, 2), vec![units("en-US"), units("zh-CN")]);
}

#[test]
fn count_limits_the_names() {
    let b = buffer("en-US\0zh-CN\0\0");
    assert_eq!(user_preferred_languages(&b, 13, 1), vec![units("en-US")]);
    assert_eq!(user_preferred_languages(&b, 13, 0), Vec::<Vec<u16>>::new());
}

#[test]
fn more_asked_than_there_are() {
    let b = buffer("en-US\0zh-CN\0\0");
    assert_eq!(
        user_preferred_languages(&b, 13, 9),
        vec![units("en-US"), units("zh-CN"), units(""), units("")]
    );
}

#[test]
fn last_name_may_end_without_a_zero() {
    let b = buffer("en\0de");
    assert_eq!(user_preferred_languages(&b, 5, 2), vec![units("en"), units("de")]);
}

#[test]
fn nothing_used_is_one_empty_name() {
    let b = buffer("");
    assert_eq!(user_preferred_languages(&b, 0, 3), vec![units("")]);
    assert_eq!(user_preferred_languages(&[], 0, 3), vec![units("")]);
}

#[test]
fn only_the_used_part_counts() {
    let b = buffer("en-US\0zh-CN\0\0");
    assert_eq!(user_preferred_languages(&b, 3, 5), vec![units("en-")]);
}

#[test]
fn agrees_with_split_and_take() {
    let samples = ["", "\0", "a", "a\0", "\0a", "a\0\0b", "ab\0cd\0ef", "\0\0\0", "x\0y\0z\0\0"];
    for text in samples {
        let b = buffer(text);
        let len = text.encode_utf16().count() as u32;
        for used in 0..=len + 2 {
            for count in 0..6 {
                assert_eq!(
                    user_preferred_languages(&b, used, count),
                    reference(&b, used, count),
                    "{:?} {} {}",
                    text,
                    used,
                    count
                );
            }
        }
    }
}

#[test]
fn first_language_becomes_the_locale() {
    let b = buffer("zh-CN\0en-US\0\0");
    assert_eq!(init_i18n(&b, 13, 2), Some(units("zh-CN")));
}

#[test]
fn no_language_no_locale() {
    let b = buffer("zh-CN\0en-US\0\0");
    assert_eq!(init_i18n(&b, 13, 0), None);
}

#[test]
fn an_empty_first_name_is_still_the_locale() {
    let b = buffer("\0en\0");
    assert_eq!(init_i18n(&b, 4, 2), Some(units("")));
}

#[test]
fn pieces_join_back_and_hold_no_zero() {
    let samples = ["", "\0", "a", "a\0", "\0a", "a\0\0b", "ab\0cd\0ef", "\0\0\0", "x\0y\0z\0\0"];
    for text in samples {
        let all: Vec<u16> = text.encode_utf16().collect();
        let pieces = user_preferred_languages(&all, all.len() as u32, u32::MAX);
        assert!(pieces.iter().all(|piece| !piece.contains(&0)));
        assert_eq!(pieces.join(&0u16), all);
        assert_eq!(pieces.len(), all.iter().filter(|&&u| u == 0).count() + 1);
    }
}
