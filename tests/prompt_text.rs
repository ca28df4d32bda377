use fsh_prompt::prompt::{
    identity_components, location_components, prompt_components, render_prompt,
    status_component, windows_dir,
};
use fsh_prompt::segment::{Emphasis, PromptComponent};
use fsh_prompt::style::{from_hex, Colour, Rgb};

#[test]
fn hex_splits_into_channels() {
    assert_eq!(from_hex(0xff5555), Rgb { r: 255, g: 85, b: 85 });
    assert_eq!(from_hex(0x0102_0304), Rgb { r: 2, g: 3, b: 4 });
}

#[test]
fn palette_colours() {
    assert_eq!(Colour::Green.to_ansi(), Rgb { r: 0x50, g: 0xfa, b: 0x7b });
    assert_eq!(Colour::Purple.to_ansi(), Rgb { r: 0xbd, g: 0x93, b: 0xf9 });
}

#[test]
fn bold_component_is_painted() {
    let c = PromptComponent::bold("main", Colour::Red);
    assert_eq!(c.render(), "\u{1b}[1;38;2;255;85;85mmain\u{1b}[0m");
}

#[test]
fn plain_component_is_left_as_is() {
    assert_eq!(PromptComponent::unstyled("in").render(), "in");
}

#[test]
fn no_space_keeps_text_and_style() {
    let c = PromptComponent::new("x", Emphasis::Bold(Colour::Blue)).no_space();
    assert_eq!(c.text, "x");
    assert_eq!(c.style, Emphasis::Bold(Colour::Blue));
    assert!(!c.space_after);
}

#[test]
fn success_shows_yellow_arrow() {
    let c = status_component(0);
    assert_eq!(c.text, "\u{f061}");
    assert_eq!(c.style, Emphasis::Bold(Colour::Yellow));
}

#[test]
fn failure_shows_status_in_red() {
    let c = status_component(-12);
    assert_eq!(c.text, "-12 \u{f061}");
    assert_eq!(c.style, Emphasis::Bold(Colour::Red));
    assert_eq!(status_component(127).text, "127 \u{f061}");
    assert_eq!(status_component(i32::MIN).text, "-2147483648 \u{f061}");
    assert_eq!(status_component(10).text, "10 \u{f061}");
}

#[test]
fn directory_on_drive_c() {
    assert_eq!(windows_dir("/home/me/src"), "C:\\home\\me\\src");
    assert_eq!(windows_dir(""), "C:");
}

#[test]
fn identity_with_and_without_host() {
    let v = identity_components("ann", None);
    assert_eq!(v.len(), 1);
    assert_eq!(v[0].style, Emphasis::Bold(Colour::Purple));
    let v = identity_components("ann", Some("box"));
    let t: Vec<&str> = v.iter().map(|c| c.text.as_str()).collect();
    assert_eq!(t, vec!["ann", "@", "box"]);
    assert_eq!(v.iter().map(|c| c.space_after).collect::<Vec<_>>(), vec![false, false, true]);
    assert_eq!(v[2].style, Emphasis::Bold(Colour::Pink));
}

#[test]
fn location_in_green() {
    let v = location_components("/tmp");
    assert_eq!(v[0].text, "in");
    assert_eq!(v[1].text, "C:\\tmp");
    assert_eq!(v[1].style, Emphasis::Bold(Colour::Green));
}

#[test]
fn rendering_joins_with_spaces() {
    let v = vec![
        PromptComponent::unstyled("a").no_space(),
        PromptComponent::unstyled("@"),
        PromptComponent::bold("b", Colour::Yellow),
    ];
    assert_eq!(render_prompt(&v), "a@ \u{1b}[1;38;2;241;250;140mb\u{1b}[0m ");
}

#[test]
fn prompt_outside_a_repository() {
    let v = prompt_components("ann", None, "/tmp", &None, None, 1);
    let t: Vec<&str> = v.iter().map(|c| c.text.as_str()).collect();
    assert_eq!(t, vec!["ann", "in", "C:\\tmp", "1 \u{f061}"]);
}


#[test]
fn whitespace_agrees_with_std() {
    for code in 0u32..0x3100 {
        if let Some(c) = char::from_u32(code) {
            assert_eq!(fsh_prompt::text::is_whitespace(c), c.is_whitespace(), "{:?}", c);
        }
    }
    assert!(!fsh_prompt::text::is_whitespace('\u{FEFF}'));
}
