use manim_rs::escape_xml;

#[test]
fn test_escape_xml() {
    assert_eq!(escape_xml("Hello"), "Hello");
    assert_eq!(escape_xml("<tag>"), "&lt;tag&gt;");
    assert_eq!(escape_xml("A & B"), "A &amp; B");
    assert_eq!(escape_xml("\"quoted\""), "&quot;quoted&quot;");
    assert_eq!(escape_xml("'single'"), "&apos;single&apos;");
}

#[test]
fn test_escape_xml_complex() {
    let input = "<div class=\"test\" data='value'>Content & more</div>";
    let escaped = escape_xml(input);
    assert!(escaped.contains("&lt;"));
    assert!(escaped.contains("&gt;"));
    assert!(escaped.contains("&quot;"));
    assert!(escaped.contains("&apos;"));
    assert!(escaped.contains("&amp;"));
}

#[test]
fn test_escape_xml_empty() {
    assert_eq!(escape_xml(""), "");
}

#[test]
fn test_escape_xml_unicode_passthrough() {
    assert_eq!(escape_xml("héllo wörld"), "héllo wörld");
}

#[test]
fn test_escape_xml_all_specials() {
    assert_eq!(escape_xml("<>&\"'"), "&lt;&gt;&amp;&quot;&apos;");
}
