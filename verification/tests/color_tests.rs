use drawing_engine::color::{rgb_string, sample_channel, CHANNEL_MAX, CHANNEL_MIN};
use drawing_engine::scalar::Scalar;
use drawing_engine::state::DrawingState;
use drawing_engine::text::{decimal_string, join};

fn channels_of(color: &str) -> Option<(u8, u8, u8)> {
    let inner = color.strip_prefix("rgb(")?.strip_suffix(")")?;
    let parts: Vec<&str> = inner.split(", ").collect();
    if parts.len() != 3 {
        return None;
    }
    Some((parts[0].parse().ok()?, parts[1].parse().ok()?, parts[2].parse().ok()?))
}

#[test]
fn rgb_string_writes_the_triple() {
    assert_eq!(rgb_string(0, 0, 0), "rgb(0, 0, 0)");
    assert_eq!(rgb_string(100, 255, 9), "rgb(100, 255, 9)");
    assert_eq!(rgb_string(10, 99, 101), "rgb(10, 99, 101)");
    assert_eq!(rgb_string(255, 255, 255), "rgb(255, 255, 255)");
}

#[test]
fn rgb_string_agrees_with_std_formatting() {
    for r in [0u8, 1, 9, 10, 11, 99, 100, 101, 199, 200, 254, 255] {
        for g in [0u8, 7, 42, 100, 255] {
            for b in [0u8, 100, 128, 255] {
                assert_eq!(rgb_string(r, g, b), format!("rgb({}, {}, {})", r, g, b));
            }
        }
    }
}

#[test]
fn decimal_string_agrees_with_std_formatting() {
    for n in [0u64, 1, 9, 10, 19, 99, 100, 101, 255, 999, 1000, 8080, 65535, 65536, 1234567890, u64::MAX] {
        assert_eq!(decimal_string(n), n.to_string());
    }
}

#[test]
fn join_puts_the_separator_between_parts() {
    let none: Vec<String> = Vec::new();
    assert_eq!(join(&none, " "), "");
    assert_eq!(join(&vec!["one".to_string()], " "), "one");
    assert_eq!(join(&vec!["a".to_string(), "b".to_string(), "c".to_string()], ", "), "a, b, c");
    assert_eq!(join(&vec!["".to_string(), "x".to_string()], "-"), "-x");
}

#[test]
fn sampled_channels_lie_in_range_and_vary() {
    assert_eq!(CHANNEL_MIN, 100);
    assert_eq!(CHANNEL_MAX, 255);
    let mut seen = std::collections::BTreeSet::new();
    for _ in 0..2000 {
        let c = sample_channel();
        assert!(c >= CHANNEL_MIN && c <= CHANNEL_MAX);
        seen.insert(c);
    }
    assert!(seen.len() > 20, "channels should vary: {} distinct", seen.len());
}

#[test]
fn generated_colors_are_rgb_triples_in_range() {
    let mut state = DrawingState::new();
    for _ in 0..200 {
        state.add_shape(Scalar::from_bits(0), Scalar::from_bits(0), Scalar::from_bits(20.0f64.to_bits()));
    }
    for shape in &state.shapes {
        let (r, g, b) = channels_of(&shape.color).expect("an RGB triple");
        assert!(r >= 100 && g >= 100 && b >= 100);
        assert_eq!(shape.color, format!("rgb({}, {}, {})", r, g, b));
    }
}
