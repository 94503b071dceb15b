use tiycode::gateway::message_formatter::{
    format_and_split, max_message_length, normalize_markdown_for_im, MessageAccumulator,
};
use tiycode::gateway::traits::Platform;

#[test]
fn split_short_message() {
    let chunks = format_and_split("hello", Platform::Weixin);
    assert_eq!(chunks, vec!["hello"]);
}

#[test]
fn split_empty_message() {
    let chunks = format_and_split("", Platform::Weixin);
    assert!(chunks.is_empty());
}

#[test]
fn split_by_paragraph() {
    let text = "a".repeat(1500) + "\n\n" + &"b".repeat(1500);
    let chunks = format_and_split(&text, Platform::Weixin);
    assert_eq!(chunks.len(), 2);
    assert!(chunks[0].len() <= 2000);
    assert!(chunks[1].len() <= 2000);
}

#[test]
fn normalize_headings_tables_and_code() {
    let text = "# Title\n## Sub\n### Deep\n```\n# not heading\n```\n| a | b |\n| --- | --- |\n| 1 |  |\n|---|\nplain";
    let out = normalize_markdown_for_im(text);
    assert_eq!(
        out,
        "【Title】\n**Sub**\n**Deep**\n```\n# not heading\n```\n  a\n  b\n  1\n|---|\nplain"
    );
}

#[test]
fn normalize_wraps_long_lines() {
    let word = "abcdefghij";
    let line = vec![word; 15].join(" ");
    let out = normalize_markdown_for_im(&line);
    let lines: Vec<&str> = out.lines().collect();
    assert_eq!(lines.len(), 2);
    assert_eq!(lines[0], vec![word; 11].join(" "));
    assert_eq!(lines[1], vec![word; 4].join(" "));
    let indented = format!(" {}", line);
    assert_eq!(normalize_markdown_for_im(&indented), indented);
}

#[test]
fn hard_split_of_single_long_paragraph() {
    let text = "x".repeat(4500);
    let chunks = format_and_split(&text, Platform::Weixin);
    assert_eq!(chunks.len(), 3);
    assert_eq!(chunks[0].chars().count(), 2000);
    assert_eq!(chunks[1].chars().count(), 2000);
    assert_eq!(chunks[2].chars().count(), 500);
}

#[test]
fn platform_limits() {
    assert_eq!(max_message_length(Platform::Weixin), 2000);
    assert_eq!(max_message_length(Platform::Wecom), 4000);
    assert_eq!(max_message_length(Platform::Feishu), 6000);
    assert_eq!(max_message_length(Platform::WhatsApp), 4096);
}

#[test]
fn accumulator_collects_text_and_errors() {
    let mut acc = MessageAccumulator::new();
    assert!(acc.is_empty());
    acc.push_error("boom");
    assert!(acc.has_error());
    assert_eq!(acc.finalize(), "❌ 错误: boom");
    let mut acc = MessageAccumulator::new();
    acc.push_text("hi");
    acc.push_error("bad");
    assert!(!acc.is_empty());
    assert_eq!(acc.finalize(), "hi\n\n❌ 错误: bad");
}

#[test]
fn a_long_paragraph_after_another_is_hard_split() {
    let text = format!("a\n\n{}", "b".repeat(2500));
    let chunks = format_and_split(&text, Platform::Weixin);
    assert_eq!(chunks, vec!["a".to_string(), "b".repeat(2000), "b".repeat(500)]);
    let alone = format_and_split(&"b".repeat(2500), Platform::Weixin);
    assert_eq!(alone.len(), 2);
    assert_eq!(alone[0].len(), 2000);
}

#[test]
fn every_heading_of_level_two_or_deeper_becomes_bold() {
    assert_eq!(normalize_markdown_for_im("#### Deep"), "**Deep**");
    assert_eq!(normalize_markdown_for_im("###### Six  "), "**Six**");
    assert_eq!(normalize_markdown_for_im("####NoSpace"), "####NoSpace");
    assert_eq!(normalize_markdown_for_im("# Top"), "【Top】");
}

#[test]
fn every_chunk_fits_the_platform_limit() {
    let text = format!("{}\n\n{}\n\n{}", "a".repeat(1999), "b".repeat(4500), "c".repeat(10));
    let chunks = format_and_split(&text, Platform::Weixin);
    assert!(chunks.iter().all(|c| !c.is_empty() && c.chars().count() <= 2000));
    assert_eq!(chunks.concat(), format!("{}{}{}", "a".repeat(1999), "b".repeat(4500), "c".repeat(10)));
}

#[test]
fn accumulator_text_is_deltas_in_order_and_error_flag_tracks_error_pushes() {
    let mut acc = MessageAccumulator::new();
    acc.push_text("Hel");
    acc.push_text("");
    acc.push_text("lo ");
    acc.push_text("world");
    assert!(!acc.has_error());
    assert_eq!(acc.finalize(), "Hello world");
    let mut acc = MessageAccumulator::new();
    acc.push_error("boom");
    acc.push_text(" after");
    assert!(acc.has_error());
    assert_eq!(acc.finalize(), "❌ 错误: boom after");
}
