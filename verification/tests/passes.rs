use scramble_text::config::UNIT;
use scramble_text::control::{has_counting, push_digits};
use scramble_text::glyph::{glyph_of_code, redraw_char, scalar_value};
use scramble_text::render::{render, settle_entry, show_entry, wants_glyph};
use scramble_text::scheduler::{
    is_ignored, jitter_max, on_tick, overdrive_pass, pass_stop, passes_chance, resize_control,
    seed_entry, seed_forward, source_char, step_entry, step_forward,
};
use scramble_text::text::{chars_of, same_chars, string_of};
use scramble_text::{draw, get_random_char, random_int, RangeOrCharCodes, ScrambleControl};
use ScrambleControl::{Char, Null, Number};

#[test]
fn random_int_stays_in_range_and_varies() {
    assert_eq!(random_int(3, 3), 3);
    let mut seen = [false; 11];
    for _ in 0..2000 {
        let r = random_int(0, 10);
        assert!((0..=10).contains(&r));
        seen[r as usize] = true;
    }
    assert!(seen.iter().filter(|s| **s).count() > 1);
    for _ in 0..200 {
        let r = random_int(-5, -2);
        assert!((-5..=-2).contains(&r));
    }
}

#[test]
fn codes_become_glyphs_or_the_mask() {
    assert_eq!(glyph_of_code(65), 'A');
    assert_eq!(glyph_of_code(0x1F600), '\u{1F600}');
    assert_eq!(glyph_of_code(0xD800), '_');
    assert_eq!(glyph_of_code(0x110000), '_');
    assert_eq!(glyph_of_code(-1), '_');
    assert!(scalar_value(0xD7FF) && scalar_value(0xE000) && !scalar_value(0xDFFF));
}

#[test]
fn a_range_gives_glyphs_of_its_codes() {
    let range = RangeOrCharCodes::Range(65, 70);
    for _ in 0..200 {
        let c = get_random_char(&range);
        assert!(('A'..='F').contains(&c));
        let v = range.get_random_value().unwrap();
        assert!((65..=70).contains(&v));
    }
    assert_eq!(range.pick(67), 67);
}

#[test]
fn a_set_gives_glyphs_of_its_codes() {
    let set = RangeOrCharCodes::Codes(vec![120, 121]);
    for _ in 0..100 {
        let c = get_random_char(&set);
        assert!(c == 'x' || c == 'y');
    }
    assert_eq!(set.pick(1), 121);
    let single = RangeOrCharCodes::Codes(vec![0xD800]);
    assert_eq!(get_random_char(&single), '_');
    assert_eq!(single.get_random_value(), Some(0xD800));
}

#[test]
fn an_empty_set_gives_the_mask() {
    let empty = RangeOrCharCodes::Codes(vec![]);
    assert_eq!(empty.get_random_value(), None);
    assert_eq!(get_random_char(&empty), '_');
}

#[test]
fn a_draw_passes_below_the_chance() {
    assert!(passes_chance(UNIT, 0));
    assert!(passes_chance(UNIT, UNIT - 1));
    assert!(!passes_chance(0, 0));
    assert!(!passes_chance(0, UNIT - 1));
    assert!(passes_chance(500_000, 499_999));
    assert!(!passes_chance(500_000, 500_000));
}

#[test]
fn no_chance_never_scrambles_and_full_chance_always_does() {
    let text = vec!['A'; 200];
    let mut table = vec![Null; 200];
    step_forward(&mut table, &text, 0, 200, 3, 0);
    assert_eq!(table, vec![Char('A'); 200]);
    step_forward(&mut table, &text, 0, 200, 3, UNIT);
    for e in &table {
        assert!(matches!(e, Number(n) if (3..=5).contains(n)));
    }
}

#[test]
fn jitter_is_half_the_scramble_rounded_up() {
    assert_eq!(jitter_max(0), 0);
    assert_eq!(jitter_max(1), 1);
    assert_eq!(jitter_max(4), 2);
    assert_eq!(jitter_max(5), 3);
    assert_eq!(jitter_max(i32::MAX), 1_073_741_824);
}

#[test]
fn the_wave_arms_or_resolves() {
    assert_eq!(step_entry('A', 1, UNIT, 0, 0), Number(1));
    assert_eq!(step_entry('A', 3, 700_000, 699_999, 2), Number(5));
    assert_eq!(step_entry('A', 3, 700_000, 700_000, 2), Char('A'));
    assert_eq!(step_entry('A', 3, 0, 0, 2), Char('A'));
    assert_eq!(step_entry('A', 0, UNIT, 0, 0), Number(0));
    assert_eq!(step_entry('A', i32::MAX, UNIT, 0, 5), Number(i32::MAX));
}

#[test]
fn a_seed_arms_what_is_not_counting() {
    assert_eq!(seed_entry(Null, 2, 5, UNIT, 0), Number(5));
    assert_eq!(seed_entry(Char('q'), 7, 5, UNIT, 0), Number(7));
    assert_eq!(seed_entry(Char('q'), 7, 5, 0, 0), Number(0));
    assert_eq!(seed_entry(Null, 7, 5, 250_000, 250_000), Number(0));
    assert_eq!(seed_entry(Number(4), 7, 5, UNIT, 0), Number(4));
    assert_eq!(seed_entry(Number(0), 7, 5, UNIT, 0), Number(0));
}

#[test]
fn a_pass_stops_at_its_limit() {
    assert_eq!(pass_stop(0, 2, 5), 2);
    assert_eq!(pass_stop(4, 2, 5), 5);
    assert_eq!(pass_stop(5, 2, 5), 5);
    assert_eq!(pass_stop(7, 2, 5), 7);
    assert_eq!(pass_stop(usize::MAX - 1, i32::MAX, usize::MAX), usize::MAX);
}

#[test]
fn resizing_cuts_or_fills_with_unreached_positions() {
    let mut table = vec![Char('a'), Number(2)];
    resize_control(&mut table, 4);
    assert_eq!(table, vec![Char('a'), Number(2), Null, Null]);
    resize_control(&mut table, 1);
    assert_eq!(table, vec![Char('a')]);
    resize_control(&mut table, 0);
    assert!(table.is_empty());
}

#[test]
fn the_wave_takes_step_positions() {
    let text = vec!['A', 'B', 'C'];
    let mut table = vec![Null, Null, Null];
    let next = step_forward(&mut table, &text, 0, 2, 0, UNIT);
    assert_eq!(next, 2);
    assert_eq!(table, vec![Number(0), Number(0), Null]);
    let next = step_forward(&mut table, &text, next, 2, 0, UNIT);
    assert_eq!(next, 3);
    assert_eq!(table, vec![Number(0), Number(0), Number(0)]);
    let next = step_forward(&mut table, &text, next, 2, 0, UNIT);
    assert_eq!(next, 3);
}

#[test]
fn the_wave_keeps_countdowns_within_the_jitter() {
    let text = vec!['A'; 50];
    let mut table = vec![Null; 50];
    let next = step_forward(&mut table, &text, 0, 50, 4, UNIT);
    assert_eq!(next, 50);
    for e in &table {
        assert!(matches!(e, Number(n) if (4..=6).contains(n)));
    }
}

#[test]
fn seeds_fall_at_or_after_the_wave() {
    let mut table = vec![Char('A'), Null, Null, Char('x')];
    seed_forward(&mut table, 4, 1, 20, 3, UNIT);
    assert_eq!(table[0], Char('A'));
    for e in &table[1..] {
        assert!(*e == Null || *e == Char('x') || *e == Number(20));
    }
    assert!(table[1..].iter().any(|e| *e == Number(20)));
}

#[test]
fn one_seed_arms_the_only_position_ahead() {
    let mut table = vec![Char('A'), Null];
    seed_forward(&mut table, 2, 1, 1, 3, UNIT);
    assert_eq!(table, vec![Char('A'), Number(3)]);
    let mut table = vec![Char('A'), Char('x')];
    seed_forward(&mut table, 2, 1, 1, 3, 0);
    assert_eq!(table, vec![Char('A'), Number(0)]);
    let mut table = vec![Char('A'), Number(7)];
    seed_forward(&mut table, 2, 1, 4, 3, UNIT);
    assert_eq!(table, vec![Char('A'), Number(7)]);
}

#[test]
fn no_seed_falls_without_seeds_or_behind_the_text() {
    let mut table = vec![Null, Null];
    seed_forward(&mut table, 2, 0, 0, 3, UNIT);
    assert_eq!(table, vec![Null, Null]);
    seed_forward(&mut table, 2, 2, 5, 3, UNIT);
    assert_eq!(table, vec![Null, Null]);
    let mut empty: Vec<ScrambleControl> = vec![];
    seed_forward(&mut empty, 3, 0, 5, 3, UNIT);
    assert!(empty.is_empty());
}

#[test]
fn a_tick_sizes_steps_and_seeds() {
    let text = vec!['A', 'B'];
    let mut table = vec![Char('z'), Null, Null, Null];
    let next = on_tick(&mut table, &text, 0, 1, 0, 0, UNIT);
    assert_eq!(next, 1);
    assert_eq!(table, vec![Number(0), Null]);
}

#[test]
fn overdrive_marks_positions_with_the_mask() {
    let text = vec!['A', ' ', 'C'];
    let ignore = vec![' '];
    let mut table: Vec<ScrambleControl> = vec![];
    let next = overdrive_pass(&mut table, &text, &ignore, 0, 2);
    assert_eq!(next, 2);
    assert_eq!(table, vec![Char('_'), Char(' ')]);
    let next = overdrive_pass(&mut table, &text, &ignore, next, 2);
    assert_eq!(next, 3);
    assert_eq!(table, vec![Char('_'), Char(' '), Char('_')]);
    let next = overdrive_pass(&mut table, &text, &ignore, next, 2);
    assert_eq!(next, 3);
    assert_eq!(table.len(), 3);
}

#[test]
fn overdrive_fills_the_gap_before_its_position() {
    let text = vec!['A', 'B', 'C', 'D'];
    let mut table = vec![Number(1)];
    let next = overdrive_pass(&mut table, &text, &vec![], 2, 1);
    assert_eq!(next, 3);
    assert_eq!(table, vec![Number(1), Null, Char('_')]);
}

#[test]
fn source_and_ignore_lookups() {
    let text = vec!['A', 'B'];
    assert_eq!(source_char(&text, 1), 'B');
    assert_eq!(source_char(&text, 2), '\0');
    assert!(is_ignored(&vec![' ', '-'], '-'));
    assert!(!is_ignored(&vec![' ', '-'], 'a'));
    assert!(!is_ignored(&vec![], ' '));
}

#[test]
fn each_state_shows_its_character() {
    let text = vec!['A', ' ', 'C'];
    let ignore = vec![' '];
    assert_eq!(show_entry(Number(2), 0, &text, 3, &ignore, false, 'x'), 'x');
    assert_eq!(show_entry(Number(2), 0, &text, 3, &ignore, true, 'x'), '_');
    assert_eq!(show_entry(Number(2), 1, &text, 3, &ignore, false, 'x'), ' ');
    assert_eq!(show_entry(Number(2), 1, &text, 3, &ignore, true, 'x'), ' ');
    assert_eq!(show_entry(Number(2), 5, &text, 3, &ignore, false, 'x'), 'x');
    assert_eq!(show_entry(Number(0), 2, &text, 3, &ignore, false, 'x'), 'C');
    assert_eq!(show_entry(Number(0), 3, &text, 3, &ignore, false, 'x'), ' ');
    assert_eq!(show_entry(Number(-1), 0, &text, 3, &ignore, false, 'x'), ' ');
    assert_eq!(show_entry(Char('q'), 2, &text, 1, &ignore, false, 'x'), 'q');
    assert_eq!(show_entry(Char('q'), 4, &text, 9, &ignore, false, 'x'), 'q');
    assert_eq!(show_entry(Char('q'), 0, &text, 1, &ignore, false, 'x'), ' ');
    assert_eq!(show_entry(Char('A'), 0, &text, 1, &ignore, false, 'x'), 'A');
    assert_eq!(show_entry(Null, 0, &text, 1, &ignore, false, 'x'), ' ');
}

#[test]
fn a_frame_counts_down_behind_the_wave_only() {
    let text = vec!['A', 'B', 'C'];
    assert_eq!(settle_entry(Number(3), 1, &text, 1), Number(2));
    assert_eq!(settle_entry(Number(3), 2, &text, 1), Number(3));
    assert_eq!(settle_entry(Number(0), 2, &text, 1), Char('C'));
    assert_eq!(settle_entry(Number(0), 3, &text, 1), Number(0));
    assert_eq!(settle_entry(Char('x'), 0, &text, 1), Char('x'));
    assert_eq!(settle_entry(Null, 0, &text, 1), Null);
}

#[test]
fn only_free_countdowns_want_a_glyph() {
    let text = vec!['A', ' '];
    let ignore = vec![' '];
    assert!(wants_glyph(Number(1), 0, &text, &ignore, false));
    assert!(!wants_glyph(Number(1), 0, &text, &ignore, true));
    assert!(!wants_glyph(Number(1), 1, &text, &ignore, false));
    assert!(!wants_glyph(Number(0), 0, &text, &ignore, false));
    assert!(!wants_glyph(Char('A'), 0, &text, &ignore, false));
}

#[test]
fn render_output_has_one_character_per_position() {
    let text = vec!['A', 'B'];
    let range = RangeOrCharCodes::Range(65, 125);
    for len in 0..5usize {
        let mut table = vec![Number(2); len];
        let out = render(&mut table, &text, 0, &vec![], &range, false);
        assert_eq!(out.len(), len);
        assert_eq!(table.len(), len);
    }
}

#[test]
fn render_under_overdrive_shows_the_mask_then_the_text() {
    let text = vec!['A', 'B'];
    let range = RangeOrCharCodes::Range(65, 125);
    let mut table = vec![Number(1), Number(1)];
    let out = render(&mut table, &text, 2, &vec![' '], &range, true);
    assert_eq!(out, vec!['_', '_']);
    assert_eq!(table, vec![Number(0), Number(0)]);
    let out = render(&mut table, &text, 2, &vec![' '], &range, true);
    assert_eq!(out, vec!['A', 'B']);
    assert_eq!(table, vec![Char('A'), Char('B')]);
    assert!(!has_counting(&table));
}

#[test]
fn render_draws_glyphs_from_the_range() {
    let text = vec!['A', 'B', 'C'];
    let range = RangeOrCharCodes::Range(97, 99);
    let mut table = vec![Number(3), Number(3), Number(3)];
    for _ in 0..3 {
        let out = render(&mut table, &text, 3, &vec!['B'], &range, false);
        assert!(('a'..='c').contains(&out[0]));
        assert_eq!(out[1], 'B');
        assert!(('a'..='c').contains(&out[2]));
    }
    assert_eq!(table, vec![Number(0), Number(0), Number(0)]);
    assert_eq!(render(&mut table, &text, 3, &vec!['B'], &range, false), text);
}

#[test]
fn ignored_characters_are_never_replaced() {
    let text: Vec<char> = "a b c".chars().collect();
    let range = RangeOrCharCodes::Range(65, 90);
    let mut table = vec![Number(9); 5];
    for overdrive in [false, true] {
        for _ in 0..4 {
            let out = render(&mut table, &text, 5, &vec![' '], &range, overdrive);
            assert_eq!(out[1], ' ');
            assert_eq!(out[3], ' ');
            assert_ne!(out[0], 'a');
        }
    }
    assert_eq!(table, vec![Number(1); 5]);
}

#[test]
fn seeded_positions_ahead_of_the_wave_do_not_count_down() {
    let text = vec!['A', 'B', 'C'];
    let range = RangeOrCharCodes::Range(65, 90);
    let mut table = vec![Number(2), Number(2), Number(2)];
    let out = render(&mut table, &text, 1, &vec![], &range, true);
    assert_eq!(out, vec!['_', '_', '_']);
    assert_eq!(table, vec![Number(1), Number(1), Number(2)]);
}

#[test]
fn counting_is_detected() {
    assert!(has_counting(&vec![Null, Number(1)]));
    assert!(!has_counting(&vec![Null, Number(0), Char('a'), Number(-2)]));
    assert!(!has_counting(&vec![]));
    assert!(Number(0).scrambling() && !Number(0).counting());
    assert!(Number(2).counting());
    assert!(!Char('a').scrambling() && !Null.scrambling());
}

#[test]
fn positions_are_written_out() {
    assert_eq!(Char('x').to_string(), "x");
    assert_eq!(Number(0).to_string(), "0");
    assert_eq!(Number(7).to_string(), "7");
    assert_eq!(Number(120).to_string(), "120");
    assert_eq!(Number(-12).to_string(), "-12");
    assert_eq!(Number(i32::MAX).to_string(), "2147483647");
    assert_eq!(Number(i32::MIN).to_string(), "-2147483648");
    assert_eq!(Null.to_string(), "");
    let mut out = vec!['#'];
    push_digits(&mut out, 4050);
    assert_eq!(out, vec!['#', '4', '0', '5', '0']);
}

#[test]
fn texts_convert_both_ways() {
    let s = "h\u{e9}llo \u{1F600}";
    let chars = chars_of(s);
    assert_eq!(chars.len(), 7);
    assert_eq!(chars[1], '\u{e9}');
    assert_eq!(string_of(&chars), s);
    assert_eq!(string_of(&vec![]), "");
    assert!(same_chars(&chars, &s.chars().collect()));
    assert!(!same_chars(&chars, &vec!['h']));
    assert!(!same_chars(&vec!['a', 'b'], &vec!['a', 'c']));
}

#[test]
fn scrambling_at_once_keeps_white_space() {
    let text = "ab cd\te";
    let mut replaced = false;
    for _ in 0..50 {
        let out: Vec<char> = draw(text).chars().collect();
        replaced = replaced || out[0] != 'a' || out[1] != 'b';
        assert_eq!(out.len(), 7);
        assert_eq!(out[2], ' ');
        assert_eq!(out[5], '\t');
        for i in [0usize, 1, 3, 4, 6] {
            assert!(('!'..='~').contains(&out[i]));
        }
    }
    assert!(replaced);
    assert_eq!(draw(""), "");
}

#[test]
fn redrawing_one_character() {
    assert_eq!(redraw_char('a', false, 33), '!');
    assert_eq!(redraw_char('a', false, 126), '~');
    assert_eq!(redraw_char(' ', true, 40), ' ');
    assert_eq!(redraw_char('a', false, 0xD800), 'a');
    assert_eq!(redraw_char('a', false, -4), 'a');
}
