use combat_engine::text::i32_dec;
use combat_engine::text::trim_spaces;

#[test]
fn trim_removes_surrounding_spaces_only() {
    assert_eq!(trim_spaces("Elf:   "), "Elf:");
    assert_eq!(trim_spaces("  Bob "), "Bob");
    assert_eq!(trim_spaces("no padding"), "no padding");
    assert_eq!(trim_spaces("a  b"), "a  b");
    assert_eq!(trim_spaces(""), "");
    assert_eq!(trim_spaces("    "), "");
    assert_eq!(trim_spaces(" ❛ ڡ ❛ "), "❛ ڡ ❛");
}

#[test]
fn decimal_rendering_is_exact() {
    assert_eq!(i32_dec(0), "0");
    assert_eq!(i32_dec(6), "6");
    assert_eq!(i32_dec(10), "10");
    assert_eq!(i32_dec(20), "20");
    assert_eq!(i32_dec(105), "105");
    assert_eq!(i32_dec(2147483647), "2147483647");
}
