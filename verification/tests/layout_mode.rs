use std::str::FromStr;

use wm_scrolling::{effective_layout_mode, toggle_layout_mode, LayoutMode};

#[test]
fn test_effective_layout_mode_override() {
    assert_eq!(
        effective_layout_mode(Some(LayoutMode::Scrolling), LayoutMode::Tiling),
        LayoutMode::Scrolling
    );
}

#[test]
fn test_effective_layout_mode_fallback() {
    assert_eq!(
        effective_layout_mode(None, LayoutMode::Scrolling),
        LayoutMode::Scrolling
    );
    assert_eq!(
        effective_layout_mode(None, LayoutMode::Tiling),
        LayoutMode::Tiling
    );
}

#[test]
fn test_toggle_layout_mode() {
    assert_eq!(toggle_layout_mode(LayoutMode::Tiling), LayoutMode::Scrolling);
    assert_eq!(toggle_layout_mode(LayoutMode::Scrolling), LayoutMode::Tiling);
}

#[test]
fn toggle_twice_restores_mode() {
    for mode in [LayoutMode::Tiling, LayoutMode::Scrolling] {
        assert_ne!(toggle_layout_mode(mode), mode);
        assert_eq!(toggle_layout_mode(toggle_layout_mode(mode)), mode);
    }
}

#[test]
fn effective_layout_mode_override_beats_default() {
    assert_eq!(
        effective_layout_mode(Some(LayoutMode::Tiling), LayoutMode::Scrolling),
        LayoutMode::Tiling
    );
}

#[test]
fn default_layout_mode_is_tiling() {
    assert_eq!(LayoutMode::default(), LayoutMode::Tiling);
}

#[test]
fn parses_layout_mode_names() {
    assert_eq!(LayoutMode::from_str("tiling"), Ok(LayoutMode::Tiling));
    assert_eq!(LayoutMode::from_str("scrolling"), Ok(LayoutMode::Scrolling));
    assert_eq!("scrolling".parse::<LayoutMode>(), Ok(LayoutMode::Scrolling));
    assert_eq!(LayoutMode::from_name("tiling"), Ok(LayoutMode::Tiling));
}

#[test]
fn rejects_other_layout_mode_names() {
    for name in ["", "Tiling", "SCROLLING", "tile", "scrolling ", "tilingx"] {
        let err = LayoutMode::from_str(name).unwrap_err();
        assert_eq!(err.unparsed, name);
        assert_eq!(err.message(), format!("Not a valid layout mode: {}", name));
    }
}
