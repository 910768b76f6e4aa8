use link_checker::outcome::CellProbes;
use link_checker::outcome::ProbeReply;
use link_checker::outcome::RedirectOutcome;
use link_checker::outcome::StatusOutcome;
use link_checker::prober::check_redirect;
use link_checker::prober::check_status;
use link_checker::prober::is_eligible;
use link_checker::row::output_headers;
use link_checker::row::process_row;
use link_checker::row::process_rows;
use link_checker::row::RowError;

fn reply(status: u16, location: Option<&str>) -> ProbeReply {
    ProbeReply::Reply { status, location: location.map(|s| s.to_string()) }
}

fn probes(status: ProbeReply, redirect: ProbeReply) -> Option<CellProbes> {
    Some(CellProbes { status_probe: status, redirect_probe: redirect })
}

fn cells(texts: &[&str]) -> Vec<String> {
    texts.iter().map(|s| s.to_string()).collect()
}

#[test]
fn headers_for_two_columns() {
    let h = output_headers(2);
    assert_eq!(
        h,
        cells(&[
            "Link 1",
            "Link 1 Status Code",
            "Link 1 Redirect",
            "Link 2",
            "Link 2 Status Code",
            "Link 2 Redirect",
        ])
    );
}

#[test]
fn headers_for_no_columns() {
    assert_eq!(output_headers(0), Vec::<String>::new());
}

#[test]
fn headers_render_wide_indices_in_decimal() {
    let h = output_headers(12);
    assert_eq!(h.len(), 36);
    assert_eq!(h[30], "Link 11");
    assert_eq!(h[33], "Link 12");
    assert_eq!(h[35], "Link 12 Redirect");
}

#[test]
fn row_has_three_cells_per_column() {
    let row = cells(&["https://example.com", "plain text"]);
    let ps = vec![probes(reply(200, None), reply(200, None)), None];
    let out = process_row(&row, 2, &ps).unwrap();
    assert_eq!(out.len(), 6);
}

#[test]
fn ineligible_cell_yields_text_and_sentinels() {
    let row = cells(&["http://example.com", "", "ftp://x", "HTTPS://example.com"]);
    let ps = vec![None, None, None, None];
    let out = process_row(&row, 4, &ps).unwrap();
    assert_eq!(
        out,
        cells(&[
            "http://example.com",
            "ERROR",
            "ERROR",
            "",
            "ERROR",
            "ERROR",
            "ftp://x",
            "ERROR",
            "ERROR",
            "HTTPS://example.com",
            "ERROR",
            "ERROR",
        ])
    );
}

#[test]
fn eligibility_is_exactly_the_https_prefix() {
    assert!(is_eligible(&"https://".to_string()));
    assert!(is_eligible(&"https://example.com".to_string()));
    assert!(!is_eligible(&"http://example.com".to_string()));
    assert!(!is_eligible(&"https:/example.com".to_string()));
    assert!(!is_eligible(&"".to_string()));
    assert!(!is_eligible(&"HTTPS://example.com".to_string()));
}

#[test]
fn probe_failures_are_independent() {
    let row = cells(&["https://example.com"]);
    let ps = vec![probes(reply(200, None), ProbeReply::Failed)];
    let out = process_row(&row, 1, &ps).unwrap();
    assert_eq!(out, cells(&["https://example.com", "200", "ERROR"]));

    let ps = vec![probes(ProbeReply::Failed, reply(200, None))];
    let out = process_row(&row, 1, &ps).unwrap();
    assert_eq!(out, cells(&["https://example.com", "ERROR", ""]));
}

#[test]
fn both_probes_failed_yields_both_sentinels() {
    let row = cells(&["https://unreachable.invalid"]);
    let ps = vec![probes(ProbeReply::Failed, ProbeReply::Failed)];
    let out = process_row(&row, 1, &ps).unwrap();
    assert_eq!(out, cells(&["https://unreachable.invalid", "ERROR", "ERROR"]));
}

#[test]
fn success_without_location_yields_code_and_empty_redirect() {
    let row = cells(&["https://example.com/"]);
    let ps = vec![probes(reply(200, None), reply(200, None))];
    let out = process_row(&row, 1, &ps).unwrap();
    assert_eq!(out, cells(&["https://example.com/", "200", ""]));
}

#[test]
fn absolute_location_yields_code_and_target() {
    let row = cells(&["https://example.com/"]);
    let ps = vec![probes(reply(301, None), reply(301, Some("https://example.com/new")))];
    let out = process_row(&row, 1, &ps).unwrap();
    assert_eq!(out, cells(&["https://example.com/", "301", "https://example.com/new"]));
}

#[test]
fn relative_location_resolves_against_request_origin() {
    let base = "https://example.com/old/page".to_string();
    let r = check_redirect(&base, &reply(302, Some("/new")));
    match r {
        RedirectOutcome::Target(t) => assert_eq!(t, "https://example.com/new"),
        _ => panic!("expected a resolved target"),
    }
    let r = check_redirect(&base, &reply(302, Some("sub")));
    match r {
        RedirectOutcome::Target(t) => assert_eq!(t, "https://example.com/old/sub"),
        _ => panic!("expected a resolved target"),
    }
}

#[test]
fn unresolvable_location_yields_redirect_sentinel() {
    // The probed text carries the scheme prefix but is not a parseable
    // absolute URL, so nothing can be resolved against it.
    let base = "https://".to_string();
    let r = check_redirect(&base, &reply(301, Some("/x")));
    assert!(matches!(r, RedirectOutcome::Error));
    // A Location value that cannot be parsed even against a good base.
    let good = "https://example.com/".to_string();
    let r = check_redirect(&good, &reply(301, Some("http://")));
    assert!(matches!(r, RedirectOutcome::Error));
}

#[test]
fn status_check_returns_code_verbatim() {
    assert_eq!(check_status(&reply(200, None)), StatusOutcome::Code(200));
    assert_eq!(check_status(&reply(503, Some("https://x.org/"))), StatusOutcome::Code(503));
    assert_eq!(check_status(&ProbeReply::Failed), StatusOutcome::Error);
}

#[test]
fn outcomes_render_as_specified() {
    assert_eq!(StatusOutcome::Code(0).render(), "0");
    assert_eq!(StatusOutcome::Code(7).render(), "7");
    assert_eq!(StatusOutcome::Code(999).render(), "999");
    assert_eq!(StatusOutcome::Error.render(), "ERROR");
    assert_eq!(RedirectOutcome::NoRedirect.render(), "");
    assert_eq!(RedirectOutcome::Error.render(), "ERROR");
    assert_eq!(RedirectOutcome::Target("https://a.example/".to_string()).render(), "https://a.example/");
}

#[test]
fn short_row_is_a_structural_error() {
    let row = cells(&["only one"]);
    let ps = vec![None, None];
    let out = process_row(&row, 2, &ps);
    assert_eq!(out, Err(RowError::TooFewCells));
}

#[test]
fn output_rows_keep_input_order() {
    let rows = vec![
        cells(&["https://a.example/"]),
        cells(&["nothing here"]),
        cells(&["https://c.example/"]),
    ];
    let ps = vec![
        vec![probes(reply(200, None), reply(200, None))],
        vec![None],
        vec![probes(ProbeReply::Failed, reply(301, Some("https://c.example/moved")))],
    ];
    let out = process_rows(&rows, 1, &ps).unwrap();
    assert_eq!(out.len(), 3);
    assert_eq!(out[0], cells(&["https://a.example/", "200", ""]));
    assert_eq!(out[1], cells(&["nothing here", "ERROR", "ERROR"]));
    assert_eq!(out[2], cells(&["https://c.example/", "ERROR", "https://c.example/moved"]));
}

#[test]
fn one_short_row_aborts_the_run() {
    let rows = vec![cells(&["https://a.example/", "x"]), cells(&["just one"])];
    let ps = vec![vec![probes(reply(200, None), reply(200, None)), None], vec![None, None]];
    let out = process_rows(&rows, 2, &ps);
    assert_eq!(out, Err(RowError::TooFewCells));
}

#[test]
fn rerun_with_same_replies_is_identical() {
    let rows = vec![
        cells(&["https://a.example/", "skip me"]),
        cells(&["https://b.example/x", "https://b.example/y"]),
    ];
    let ps = vec![
        vec![probes(reply(200, None), reply(200, Some("/here"))), None],
        vec![
            probes(ProbeReply::Failed, ProbeReply::Failed),
            probes(reply(404, None), reply(404, None)),
        ],
    ];
    let first = process_rows(&rows, 2, &ps).unwrap();
    let second = process_rows(&rows, 2, &ps).unwrap();
    assert_eq!(first, second);
}
