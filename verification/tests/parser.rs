use git_source::git_url::GitUrl;

/// Parses a URL with each character of the range in its host name, alone and
/// doubled, between two letters.
fn parse_hosts_with(from: u32, to: u32) -> usize {
    let mut parsed = 0;
    for code in from..to {
        if let Some(c) = char::from_u32(code) {
            if GitUrl::parse(&format!("https://a{}b/", c)).is_some() {
                parsed += 1;
            }
            if GitUrl::parse(&format!("https://{}{}.example/x", c, c)).is_some() {
                parsed += 1;
            }
        }
    }
    parsed
}

#[test]
fn parser_returns_on_every_character_of_the_first_plane() {
    assert!(parse_hosts_with(0, 0x8000) > 0);
    assert!(parse_hosts_with(0x8000, 0x1_0000) > 0);
}

#[test]
fn parser_returns_on_every_character_of_the_second_and_third_plane() {
    assert!(parse_hosts_with(0x1_0000, 0x3_0000) > 0);
}

#[test]
fn parser_returns_on_every_character_of_the_middle_planes() {
    parse_hosts_with(0x3_0000, 0x8_0000);
}

#[test]
fn parser_returns_on_every_character_of_the_higher_planes() {
    parse_hosts_with(0x8_0000, 0xD_0000);
}

#[test]
fn parser_returns_on_every_character_of_the_last_planes() {
    parse_hosts_with(0xD_0000, 0x11_0000);
}
