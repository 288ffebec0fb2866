use hellman_tmto::MAX_DOMAIN;
use hellman_tmto::chain::build_chain;
use hellman_tmto::sample::generate;
use hellman_tmto::table::{render_table, table_text, u64_to_dec};

#[test]
fn decimal_rendering_exact() {
    assert_eq!(u64_to_dec(0), "0");
    assert_eq!(u64_to_dec(7), "7");
    assert_eq!(u64_to_dec(10), "10");
    assert_eq!(u64_to_dec(42), "42");
    assert_eq!(u64_to_dec(MAX_DOMAIN), "274877906943");
}

#[test]
fn render_table_exact_text() {
    let pairs = vec![(5u64, 7u64), (9, 11)];
    let text = render_table(2, 4, 1, &pairs);
    assert_eq!(text, "nchains=2, ncolumns=4, redu=1\n5 7\n9 11\n");
}

#[test]
fn rendered_table_has_nchains_plus_one_lines() {
    let entries = generate(10);
    let text = table_text(&entries, 1, 4);
    let lines: Vec<&str> = text.lines().collect();
    assert_eq!(lines.len(), 11);
    assert_eq!(lines[0], "nchains=10, ncolumns=4, redu=1");
    for row in &lines[1..] {
        let mut fields = row.split(' ');
        let start: u64 = fields.next().unwrap().parse().unwrap();
        let end: u64 = fields.next().unwrap().parse().unwrap();
        assert!(fields.next().is_none());
        assert!(start <= MAX_DOMAIN);
        assert!(end <= MAX_DOMAIN);
    }
}

#[test]
fn two_tables_share_starts_and_reproduce_ends() {
    let ntables = 2u8;
    let nchains = 10u64;
    let ncolumns = 4u64;
    let entries = generate(nchains);
    let texts: Vec<String> = (1..=ntables)
        .map(|id| table_text(&entries, id, ncolumns))
        .collect();
    assert_eq!(texts.len(), 2);
    assert_ne!(texts[0], texts[1]);

    let mut all_ends: Vec<Vec<u64>> = Vec::new();
    for (t, text) in texts.iter().enumerate() {
        let rotation = (t + 1) as u8;
        let lines: Vec<&str> = text.lines().collect();
        assert_eq!(lines.len(), (nchains + 1) as usize);
        assert_eq!(
            lines[0],
            format!("nchains={}, ncolumns={}, redu={}", nchains, ncolumns, rotation)
        );
        let mut ends = Vec::new();
        for (i, row) in lines[1..].iter().enumerate() {
            let mut fields = row.split(' ');
            let start: u64 = fields.next().unwrap().parse().unwrap();
            let end: u64 = fields.next().unwrap().parse().unwrap();
            // Both tables list the same start points in the same order.
            assert_eq!(start, entries[i]);
            // Re-running the chain standalone reproduces the recorded end.
            assert_eq!(end, build_chain(start, rotation, ncolumns));
            ends.push(end);
        }
        all_ends.push(ends);
    }
    // Different rotations give generally different end points.
    assert_ne!(all_ends[0], all_ends[1]);
}
