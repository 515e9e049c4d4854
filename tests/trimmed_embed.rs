use music_bot::trimmed_embed::{
    truncate_string_to_char_boundary, truncate_string_to_newline_boundary, Embed, Size,
    TrimmedEmbed,
};

/// Checks an embed message against the platform's limits: per-part
/// lengths, at most 25 fields per embed and 6000 bytes in all.
fn check_embed_lengths(embeds: &[Embed]) -> Result<(), String> {
    let mut sum_all: usize = 0;
    for (i, embed) in embeds.iter().enumerate() {
        let parts = [
            (embed.title.as_deref().map(|t| t.trim().len()).unwrap_or(0), 256, "title"),
            (
                embed.description.as_deref().map(|t| t.trim().len()).unwrap_or(0),
                4096,
                "description",
            ),
            (embed.footer.as_deref().map(|t| t.trim().len()).unwrap_or(0), 2048, "footer"),
        ];
        for (count, max, what) in parts {
            sum_all = sum_all.saturating_add(count);
            if count > max {
                return Err(format!("embed {} {} too long: {}", i, what, count));
            }
        }
        for field in &embed.fields {
            let name = field.name.trim().len();
            let value = field.value.trim().len();
            sum_all = sum_all.saturating_add(name).saturating_add(value);
            if name > 256 || value > 1024 {
                return Err(format!("embed {} field too long", i));
            }
        }
        if embed.fields.len() > 25 {
            return Err(format!("embed {} has {} fields", i, embed.fields.len()));
        }
    }
    if sum_all > 6000 {
        Err(format!("embeds hold {} bytes", sum_all))
    } else {
        Ok(())
    }
}

fn char_cut(input: &str, max_len: usize) -> String {
    let mut s = input.to_owned();
    truncate_string_to_char_boundary(&mut s, max_len);
    s
}

fn newline_cut(input: &str, max_len: usize) -> String {
    let mut s = input.to_owned();
    truncate_string_to_newline_boundary(&mut s, max_len);
    s
}

#[test]
fn truncate_max_size_embeds() {
    let mut size = Size::new();
    let e1 = TrimmedEmbed::new()
        .too_big_msg("")
        .description(&mut size, "-".repeat(1000))
        .into_embed();
    let e2 = TrimmedEmbed::new()
        .too_big_msg("")
        .description(&mut size, "-".repeat(1000))
        .into_embed();
    let e3 = TrimmedEmbed::new()
        .too_big_msg("")
        .description(&mut size, "-".repeat(4000))
        .into_embed();
    assert_eq!(e1.description, Some("-".repeat(1000)));
    assert_eq!(e2.description, Some("-".repeat(1000)));
    assert_eq!(e3.description, Some("-".repeat(4000)));
    check_embed_lengths(&[e1, e2, e3]).unwrap();
}

#[test]
fn char_boundary_trim_to_zero() {
    assert_eq!(char_cut("🪾abcde", 3), "...");
}

#[test]
fn char_boundary_start_inside_char() {
    assert_eq!(char_cut("🪾abcde", 4), "...");
    assert_eq!(char_cut("🪾abcde", 5), "...");
    assert_eq!(char_cut("🪾abcde", 6), "...");
}

#[test]
fn char_boundary_start_on_multi_byte_edge() {
    assert_eq!(char_cut("🪾abcde", 7), "🪾...");
}

#[test]
fn char_boundary_start_on_ascii_char() {
    assert_eq!(char_cut("🪾abcde", 8), "🪾a...");
}

#[test]
fn char_boundary_start_past_end() {
    assert_eq!(char_cut("🪾abcde", 9), "🪾abcde");
}

#[test]
fn char_boundary_trim_does_not_fit() {
    assert_eq!(char_cut("abcdef", 2), "");
}

#[test]
fn newline_boundary_without_newline() {
    assert_eq!(newline_cut("abcde", 4), "\n...");
}

#[test]
fn newline_boundary_start_at_newline() {
    assert_eq!(newline_cut("abcd\nabcdef", 8), "abcd\n...");
}

#[test]
fn newline_boundary_start_before_newline() {
    assert_eq!(newline_cut("abcd\nabcdef", 9), "abcd\n...");
}

#[test]
fn newline_boundary_full_string_fits() {
    assert_eq!(newline_cut("abcd\nabcdef", 11), "abcd\nabcdef");
    assert_eq!(newline_cut("abcd\nabcdef", 15), "abcd\nabcdef");
}

#[test]
fn title_is_cut_to_256_bytes() {
    let mut size = Size::new();
    let e = TrimmedEmbed::new().title(&mut size, "x".repeat(300)).into_embed();
    let title = e.title.unwrap();
    assert_eq!(title.len(), 256);
    assert!(title.ends_with("..."));
    assert_eq!(e.footer, None);
}

#[test]
fn content_over_budget_is_left_out_with_note() {
    let mut size = Size::new();
    let first = TrimmedEmbed::new()
        .too_big_msg("")
        .description(&mut size, "a".repeat(4096))
        .into_embed();
    assert_eq!(first.description.as_ref().map(|d| d.len()), Some(4096));
    let second = TrimmedEmbed::new()
        .description(&mut size, "b".repeat(3000))
        .into_embed();
    assert_eq!(second.description, None);
    assert_eq!(
        second.footer,
        Some("Too much data, some fields have been skipped.".to_owned())
    );
}

#[test]
fn fields_stop_at_the_first_that_does_not_fit() {
    let mut size = Size::new();
    let fields = vec![
        ("a".to_owned(), "1".repeat(1000), true),
        ("b".to_owned(), "2".repeat(2000), false),
        ("c".to_owned(), "3".to_owned(), true),
    ];
    let _big = TrimmedEmbed::new()
        .too_big_msg("")
        .description(&mut size, "z".repeat(4000))
        .into_embed();
    let e = TrimmedEmbed::new().too_big_msg("...").fields(&mut size, fields).into_embed();
    assert_eq!(e.fields.len(), 1);
    assert_eq!(e.fields[0].name, "a");
    assert_eq!(e.fields[0].value.len(), 1000);
    assert!(e.fields[0].inline);
    assert_eq!(e.footer, Some("...".to_owned()));
}

#[test]
fn field_value_is_cut_to_1024_bytes() {
    let mut size = Size::new();
    let e = TrimmedEmbed::new()
        .field(&mut size, "n".to_owned(), "v".repeat(2000), true)
        .colour(0xFF0000)
        .timestamp(1_700_000_000)
        .into_embed();
    assert_eq!(e.fields.len(), 1);
    assert_eq!(e.fields[0].value.len(), 1024);
    assert_eq!(e.colour, Some(0xFF0000));
    assert_eq!(e.timestamp, Some(1_700_000_000));
}

#[test]
fn newline_descriptions_cut_at_a_line() {
    let mut size = Size::new();
    let text = format!("{}\n{}", "a".repeat(3000), "b".repeat(3000));
    let e = TrimmedEmbed::new()
        .too_big_msg("...")
        .truncate_description_newline()
        .description(&mut size, text)
        .into_embed();
    assert_eq!(e.description, Some(format!("{}\n...", "a".repeat(3000))));
}
