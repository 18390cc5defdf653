use query_exporter::config::{Config, DatabaseConfig, MetricType, QueryConfig};
use query_exporter::instrument::Sample;
use query_exporter::metrics::{MetricBuildError, Metrics};
use query_exporter::refresh::{QueryOutcome, Refresh, Row};
use query_exporter::state::AppState;

fn query(name: &str, sql: &str, value_column: &str, labels: &[&str]) -> QueryConfig {
    QueryConfig {
        name: name.to_string(),
        help: format!("help for {}", name),
        query: sql.to_string(),
        value_column: value_column.to_string(),
        label_columns: labels.iter().map(|l| l.to_string()).collect(),
        metric_type: MetricType::Gauge,
    }
}

fn config(queries: Vec<QueryConfig>) -> Config {
    Config {
        database: DatabaseConfig {
            user: "exporter".to_string(),
            password: "secret".to_string(),
            host: "localhost".to_string(),
            port: 5432,
            dbname: "metrics".to_string(),
        },
        queries,
    }
}

fn row(labels: &[Option<&str>], value: Option<f64>) -> Row {
    Row {
        labels: labels.iter().map(|l| l.map(|t| t.to_string())).collect(),
        value: value.map(f64::to_bits),
    }
}

fn sorted(samples: Vec<Sample>) -> Vec<(Vec<(String, String)>, f64)> {
    let mut out: Vec<(Vec<(String, String)>, f64)> =
        samples.into_iter().map(|s| (s.labels, f64::from_bits(s.bits))).collect();
    out.sort_by(|a, b| a.0.cmp(&b.0));
    out
}

fn pair(name: &str, value: &str) -> (String, String) {
    (name.to_string(), value.to_string())
}

#[test]
fn scalar_metric_takes_the_count() {
    let cfg = config(vec![query("rows_total", "SELECT count(*) AS c FROM t", "c", &[])]);
    let mut state = AppState::new(&cfg).unwrap();
    state.update(&Refresh::Results(vec![QueryOutcome::Rows(vec![row(&[], Some(7.0))])]));
    let samples = sorted(state.metrics().samples(0));
    assert_eq!(samples, vec![(vec![], 7.0)]);
    let body = String::from_utf8(state.encode().unwrap()).unwrap();
    assert!(body.contains("# TYPE rows_total gauge"));
    assert!(body.contains("rows_total 7\n"));
}

#[test]
fn vector_metric_takes_one_sample_per_row() {
    let cfg = config(vec![query(
        "by_status",
        "SELECT status, count(*) AS c FROM t GROUP BY status",
        "c",
        &["status"],
    )]);
    let mut state = AppState::new(&cfg).unwrap();
    state.update(&Refresh::Results(vec![QueryOutcome::Rows(vec![
        row(&[Some("ok")], Some(5.0)),
        row(&[Some("err")], Some(2.0)),
    ])]));
    let samples = sorted(state.metrics().samples(0));
    assert_eq!(
        samples,
        vec![(vec![pair("status", "err")], 2.0), (vec![pair("status", "ok")], 5.0)]
    );
    let body = String::from_utf8(state.encode().unwrap()).unwrap();
    assert!(body.contains("by_status{status=\"ok\"} 5\n"));
    assert!(body.contains("by_status{status=\"err\"} 2\n"));
}

#[test]
fn build_gives_one_binding_per_query() {
    let cfg = config(vec![
        query("a_total", "SELECT 1 AS v", "v", &[]),
        query("b_by_kind", "SELECT kind, 1 AS v FROM t", "v", &["kind"]),
        query("c_total", "SELECT 2 AS v", "v", &[]),
    ]);
    let state = AppState::new(&cfg).unwrap();
    let metrics = state.metrics();
    assert_eq!(metrics.len(), 3);
    assert_eq!(metrics.query(0).unwrap().name, "a_total");
    assert_eq!(metrics.query(1).unwrap().name, "b_by_kind");
    assert_eq!(metrics.query(2).unwrap().name, "c_total");
    assert!(metrics.query(3).is_none());
    assert!(metrics.is_scalar(0));
    assert!(!metrics.is_scalar(1));
    assert!(metrics.is_scalar(2));
    assert!(!metrics.is_scalar(3));
    assert_eq!(sorted(metrics.samples(0)), vec![(vec![], 0.0)]);
    assert_eq!(sorted(metrics.samples(1)), vec![]);
    assert_eq!(sorted(metrics.samples(2)), vec![(vec![], 0.0)]);
    assert_eq!(sorted(metrics.samples(3)), vec![]);
}

#[test]
fn duplicate_names_fail_the_build() {
    let cfg = config(vec![
        query("twice", "SELECT 1 AS v", "v", &[]),
        query("other", "SELECT 1 AS v", "v", &[]),
        query("twice", "SELECT 2 AS v", "v", &[]),
    ]);
    match AppState::new(&cfg) {
        Err(e) => assert_eq!(e, MetricBuildError::Collision { index: 2 }),
        Ok(_) => panic!("a duplicate name was accepted"),
    }
}

#[test]
fn invalid_queries_fail_the_build() {
    let bad_name = config(vec![
        query("good", "SELECT 1 AS v", "v", &[]),
        query("9bad", "SELECT 1 AS v", "v", &[]),
    ]);
    assert_eq!(AppState::new(&bad_name).err(), Some(MetricBuildError::Invalid { index: 1 }));

    let mut no_help = query("fine", "SELECT 1 AS v", "v", &[]);
    no_help.help = String::new();
    assert_eq!(
        AppState::new(&config(vec![no_help])).err(),
        Some(MetricBuildError::Invalid { index: 0 })
    );

    let bad_label = config(vec![query("fine", "SELECT 1 AS v", "v", &["not-a-label"])]);
    assert_eq!(AppState::new(&bad_label).err(), Some(MetricBuildError::Invalid { index: 0 }));

    let repeated_label = config(vec![query("fine", "SELECT 1 AS v", "v", &["a", "a"])]);
    assert_eq!(
        AppState::new(&repeated_label).err(),
        Some(MetricBuildError::Invalid { index: 0 })
    );

    let invalid_before_duplicate = config(vec![
        query("twice", "SELECT 1 AS v", "v", &[]),
        query("twice", "SELECT 1 AS v", "v", &[]),
        query("", "SELECT 1 AS v", "v", &[]),
    ]);
    assert_eq!(
        AppState::new(&invalid_before_duplicate).err(),
        Some(MetricBuildError::Invalid { index: 2 })
    );
}

#[test]
fn metric_names_may_hold_colons_and_digits() {
    let cfg = config(vec![
        query(":", "SELECT 1 AS v", "v", &[]),
        query("a_b_9_d:x_", "SELECT 1 AS v", "v", &["_l9"]),
    ]);
    assert!(AppState::new(&cfg).is_ok());
    let colon_label = config(vec![query("m", "SELECT 1 AS v", "v", &["a:b"])]);
    assert!(AppState::new(&colon_label).is_err());
}

#[test]
fn metrics_new_alone_does_not_see_duplicates() {
    let specs = vec![
        query("twice", "SELECT 1 AS v", "v", &[]),
        query("twice", "SELECT 2 AS v", "v", &[]),
    ];
    let metrics = Metrics::new(&specs).unwrap();
    assert_eq!(metrics.len(), 2);
    let mut registry = prometheus::Registry::new();
    assert_eq!(metrics.register(&mut registry), Err(MetricBuildError::Collision { index: 1 }));
    assert_eq!(registry.gather().len(), 1);
}

fn two_scalars_and_a_vector() -> AppState {
    let cfg = config(vec![
        query("first_total", "SELECT 1 AS v", "v", &[]),
        query("by_kind", "SELECT kind, v FROM t", "v", &["kind"]),
        query("second_total", "SELECT 2 AS v", "v", &[]),
    ]);
    AppState::new(&cfg).unwrap()
}

#[test]
fn scalar_without_rows_keeps_prior_value() {
    let mut state = two_scalars_and_a_vector();
    state.update(&Refresh::Results(vec![
        QueryOutcome::Rows(vec![row(&[], Some(3.0))]),
        QueryOutcome::Rows(vec![row(&[Some("a")], Some(1.0))]),
        QueryOutcome::Rows(vec![row(&[], Some(4.0))]),
    ]));
    state.update(&Refresh::Results(vec![
        QueryOutcome::Rows(vec![]),
        QueryOutcome::Rows(vec![row(&[Some("a")], Some(10.0))]),
        QueryOutcome::Rows(vec![row(&[], Some(9.0))]),
    ]));
    let metrics = state.metrics();
    assert_eq!(sorted(metrics.samples(0)), vec![(vec![], 3.0)]);
    assert_eq!(sorted(metrics.samples(1)), vec![(vec![pair("kind", "a")], 10.0)]);
    assert_eq!(sorted(metrics.samples(2)), vec![(vec![], 9.0)]);
}

#[test]
fn scalar_keeps_prior_value_on_every_kind_of_failure() {
    let mut state = two_scalars_and_a_vector();
    state.update(&Refresh::Results(vec![QueryOutcome::Rows(vec![row(&[], Some(3.5))])]));
    let failures = vec![
        QueryOutcome::Failed,
        QueryOutcome::Rows(vec![]),
        QueryOutcome::Rows(vec![row(&[], Some(1.0)), row(&[], Some(2.0))]),
        QueryOutcome::Rows(vec![row(&[], None)]),
    ];
    for failure in failures {
        state.update(&Refresh::Results(vec![failure]));
        assert_eq!(sorted(state.metrics().samples(0)), vec![(vec![], 3.5)]);
    }
    state.update(&Refresh::Results(vec![QueryOutcome::Rows(vec![row(&[Some("x")], Some(6.0))])]));
    assert_eq!(sorted(state.metrics().samples(0)), vec![(vec![], 6.0)]);
}

#[test]
fn vector_forgets_combinations_missing_from_the_second_result() {
    let mut state = two_scalars_and_a_vector();
    state.update(&Refresh::Results(vec![
        QueryOutcome::Failed,
        QueryOutcome::Rows(vec![row(&[Some("a")], Some(1.0)), row(&[Some("b")], Some(2.0))]),
    ]));
    assert_eq!(
        sorted(state.metrics().samples(1)),
        vec![(vec![pair("kind", "a")], 1.0), (vec![pair("kind", "b")], 2.0)]
    );
    state.update(&Refresh::Results(vec![
        QueryOutcome::Failed,
        QueryOutcome::Rows(vec![row(&[Some("b")], Some(5.0))]),
    ]));
    assert_eq!(sorted(state.metrics().samples(1)), vec![(vec![pair("kind", "b")], 5.0)]);
    let body = String::from_utf8(state.encode().unwrap()).unwrap();
    assert!(!body.contains("kind=\"a\""));
    assert!(body.contains("by_kind{kind=\"b\"} 5\n"));
}

#[test]
fn row_without_value_is_skipped() {
    let mut state = two_scalars_and_a_vector();
    state.update(&Refresh::Results(vec![
        QueryOutcome::Failed,
        QueryOutcome::Rows(vec![
            row(&[Some("a")], Some(1.0)),
            row(&[Some("b")], None),
            row(&[Some("c")], Some(3.0)),
        ]),
    ]));
    assert_eq!(
        sorted(state.metrics().samples(1)),
        vec![(vec![pair("kind", "a")], 1.0), (vec![pair("kind", "c")], 3.0)]
    );
}

#[test]
fn row_without_a_label_is_skipped() {
    let mut state = two_scalars_and_a_vector();
    state.update(&Refresh::Results(vec![
        QueryOutcome::Failed,
        QueryOutcome::Rows(vec![
            row(&[None], Some(1.0)),
            row(&[], Some(2.0)),
            row(&[Some("a"), Some("b")], Some(3.0)),
            row(&[Some("d")], Some(4.0)),
        ]),
    ]));
    assert_eq!(sorted(state.metrics().samples(1)), vec![(vec![pair("kind", "d")], 4.0)]);
}

#[test]
fn failed_vector_query_empties_the_family() {
    let mut state = two_scalars_and_a_vector();
    state.update(&Refresh::Results(vec![
        QueryOutcome::Failed,
        QueryOutcome::Rows(vec![row(&[Some("a")], Some(1.0))]),
    ]));
    assert_eq!(state.metrics().samples(1).len(), 1);
    state.update(&Refresh::Results(vec![QueryOutcome::Failed, QueryOutcome::Failed]));
    assert_eq!(state.metrics().samples(1).len(), 0);
}

#[test]
fn later_row_wins_for_the_same_labels() {
    let mut state = two_scalars_and_a_vector();
    state.update(&Refresh::Results(vec![
        QueryOutcome::Failed,
        QueryOutcome::Rows(vec![row(&[Some("a")], Some(1.0)), row(&[Some("a")], Some(8.0))]),
    ]));
    assert_eq!(sorted(state.metrics().samples(1)), vec![(vec![pair("kind", "a")], 8.0)]);
}

#[test]
fn no_client_changes_nothing() {
    let mut state = two_scalars_and_a_vector();
    state.update(&Refresh::Results(vec![
        QueryOutcome::Rows(vec![row(&[], Some(3.0))]),
        QueryOutcome::Rows(vec![row(&[Some("a")], Some(1.0))]),
        QueryOutcome::Rows(vec![row(&[], Some(4.0))]),
    ]));
    state.update(&Refresh::NoClient);
    let metrics = state.metrics();
    assert_eq!(sorted(metrics.samples(0)), vec![(vec![], 3.0)]);
    assert_eq!(sorted(metrics.samples(1)), vec![(vec![pair("kind", "a")], 1.0)]);
    assert_eq!(sorted(metrics.samples(2)), vec![(vec![], 4.0)]);
}

#[test]
fn bindings_without_an_outcome_stay_as_they_are() {
    let mut state = two_scalars_and_a_vector();
    state.update(&Refresh::Results(vec![
        QueryOutcome::Rows(vec![row(&[], Some(3.0))]),
        QueryOutcome::Rows(vec![row(&[Some("a")], Some(1.0))]),
        QueryOutcome::Rows(vec![row(&[], Some(4.0))]),
    ]));
    state.update(&Refresh::Results(vec![QueryOutcome::Rows(vec![row(&[], Some(5.0))])]));
    let metrics = state.metrics();
    assert_eq!(sorted(metrics.samples(0)), vec![(vec![], 5.0)]);
    assert_eq!(sorted(metrics.samples(1)), vec![(vec![pair("kind", "a")], 1.0)]);
    assert_eq!(sorted(metrics.samples(2)), vec![(vec![], 4.0)]);
    state.update(&Refresh::Results(vec![
        QueryOutcome::Failed,
        QueryOutcome::Failed,
        QueryOutcome::Failed,
        QueryOutcome::Rows(vec![row(&[], Some(6.0))]),
    ]));
    assert_eq!(sorted(state.metrics().samples(2)), vec![(vec![], 4.0)]);
}

#[test]
fn samples_keep_their_exact_bits() {
    let cfg = config(vec![query("exact", "SELECT v", "v", &[])]);
    let mut state = AppState::new(&cfg).unwrap();
    let patterns: Vec<u64> = vec![
        0,
        (-0.0f64).to_bits(),
        f64::INFINITY.to_bits(),
        f64::MIN_POSITIVE.to_bits(),
        0.1f64.to_bits(),
        f64::NAN.to_bits(),
    ];
    for bits in patterns {
        state.update(&Refresh::Results(vec![QueryOutcome::Rows(vec![Row {
            labels: vec![],
            value: Some(bits),
        }])]));
        let samples = state.metrics().samples(0);
        assert_eq!(samples.len(), 1);
        assert_eq!(samples[0].bits, bits);
        assert!(samples[0].labels.is_empty());
    }
}

#[test]
fn label_pairs_come_sorted_by_name() {
    let cfg = config(vec![query("by_place", "SELECT zone, app, v FROM t", "v", &["zone", "app"])]);
    let mut state = AppState::new(&cfg).unwrap();
    state.update(&Refresh::Results(vec![QueryOutcome::Rows(vec![row(
        &[Some("z1"), Some("a1")],
        Some(2.5),
    )])]));
    assert_eq!(
        sorted(state.metrics().samples(0)),
        vec![(vec![pair("app", "a1"), pair("zone", "z1")], 2.5)]
    );
}

#[test]
fn label_values_that_run_together_share_a_child() {
    let cfg = config(vec![query("by_pair", "SELECT x, y, v FROM t", "v", &["x", "y"])]);
    let mut state = AppState::new(&cfg).unwrap();
    state.update(&Refresh::Results(vec![QueryOutcome::Rows(vec![
        row(&[Some("ab"), Some("c")], Some(1.0)),
        row(&[Some("a"), Some("bc")], Some(2.0)),
    ])]));
    assert_eq!(
        sorted(state.metrics().samples(0)),
        vec![(vec![pair("x", "ab"), pair("y", "c")], 2.0)]
    );
}

#[test]
fn scrape_refreshes_and_then_encodes() {
    let mut state = two_scalars_and_a_vector();
    let answer = state.scrape(&Refresh::Results(vec![
        QueryOutcome::Rows(vec![row(&[], Some(3.0))]),
        QueryOutcome::Rows(vec![row(&[Some("a")], Some(1.5))]),
    ]));
    assert_eq!(answer.content_type, "text/plain; version=0.0.4");
    let body = String::from_utf8(answer.body.unwrap()).unwrap();
    assert!(body.contains("# HELP first_total help for first_total\n"));
    assert!(body.contains("first_total 3\n"));
    assert!(body.contains("by_kind{kind=\"a\"} 1.5\n"));
    assert!(body.contains("second_total 0\n"));
}

#[test]
fn empty_configuration_builds_an_empty_set() {
    let mut state = AppState::new(&config(vec![])).unwrap();
    assert_eq!(state.metrics().len(), 0);
    state.update(&Refresh::Results(vec![QueryOutcome::Failed]));
    assert_eq!(state.encode().unwrap(), Vec::<u8>::new());
}

#[test]
fn cloned_configuration_builds_the_same_set() {
    let cfg = config(vec![query("by_kind", "SELECT kind, v FROM t", "v", &["kind"])]);
    let copy = cfg.clone();
    assert_eq!(copy.queries[0].name, "by_kind");
    assert_eq!(copy.queries[0].label_columns, vec!["kind".to_string()]);
    assert_eq!(copy.database.port, 5432);
    assert_eq!(copy.database.dbname, "metrics");
    assert!(AppState::new(&copy).is_ok());
}

#[test]
fn collect_lists_one_family_per_binding() {
    let mut state = two_scalars_and_a_vector();
    let fresh = state.metrics().collect();
    assert_eq!(fresh.len(), 3);
    assert_eq!(fresh[0].samples.len(), 1);
    assert_eq!(fresh[1].samples.len(), 0);
    assert_eq!(fresh[2].samples.len(), 1);

    state.update(&Refresh::Results(vec![
        QueryOutcome::Rows(vec![row(&[], Some(3.0))]),
        QueryOutcome::Rows(vec![
            row(&[Some("a")], Some(1.0)),
            row(&[Some("b")], Some(2.0)),
            row(&[Some("c")], None),
        ]),
        QueryOutcome::Failed,
    ]));
    let mut families = state.metrics().collect();
    assert_eq!(families.len(), 3);
    let third = families.pop().unwrap();
    let second = families.pop().unwrap();
    let first = families.pop().unwrap();
    assert_eq!(first.name, "first_total");
    assert_eq!(first.help, "help for first_total");
    assert_eq!(sorted(first.samples), vec![(vec![], 3.0)]);
    assert_eq!(second.name, "by_kind");
    assert_eq!(second.help, "help for by_kind");
    assert_eq!(
        sorted(second.samples),
        vec![(vec![pair("kind", "a")], 1.0), (vec![pair("kind", "b")], 2.0)]
    );
    assert_eq!(third.name, "second_total");
    assert_eq!(sorted(third.samples), vec![(vec![], 0.0)]);
}

#[test]
fn different_names_with_one_identifier_collide() {
    let first = "_hgiyDlsaizkc";
    let second = "vwsnqgna_ik:g";
    assert!(AppState::new(&config(vec![query(first, "SELECT 1 AS v", "v", &[])])).is_ok());
    assert!(AppState::new(&config(vec![query(second, "SELECT 1 AS v", "v", &[])])).is_ok());
    let both = config(vec![
        query(first, "SELECT 1 AS v", "v", &[]),
        query(second, "SELECT 1 AS v", "v", &["kind"]),
    ]);
    assert_eq!(AppState::new(&both).err(), Some(MetricBuildError::Collision { index: 1 }));
}

#[test]
fn every_built_state_is_encoded() {
    let mut state = two_scalars_and_a_vector();
    assert!(state.encode().is_some());
    state.update(&Refresh::Results(vec![
        QueryOutcome::Rows(vec![row(&[], Some(f64::NAN))]),
        QueryOutcome::Rows(vec![
            row(&[Some("a \"quoted\"\nline\\")], Some(f64::NEG_INFINITY)),
            row(&[Some("")], Some(-0.0)),
        ]),
        QueryOutcome::Failed,
    ]));
    let body = String::from_utf8(state.encode().unwrap()).unwrap();
    assert!(body.contains("first_total NaN\n"));
    assert!(body.contains("by_kind{kind=\"a \\\"quoted\\\"\\nline\\\\\"} -inf\n"));
    assert!(body.contains("by_kind{kind=\"\"} -0\n"));
    state.update(&Refresh::Results(vec![QueryOutcome::Failed, QueryOutcome::Failed]));
    let body = String::from_utf8(state.encode().unwrap()).unwrap();
    assert!(!body.contains("by_kind"));
    assert!(body.contains("second_total 0\n"));
}

#[test]
fn exposition_shows_what_the_bindings_hold_and_nothing_else() {
    let queries = || {
        vec![
            query("zz_total", "SELECT 1 AS v", "v", &[]),
            query("by_kind", "SELECT kind, v FROM t", "v", &["kind"]),
            query("aa_total", "SELECT 2 AS v", "v", &[]),
        ]
    };
    let mut first = AppState::new(&config(queries())).unwrap();
    let mut second = AppState::new(&config(queries())).unwrap();
    assert_eq!(first.encode(), second.encode());

    first.update(&Refresh::Results(vec![
        QueryOutcome::Rows(vec![row(&[], Some(1.0))]),
        QueryOutcome::Rows(vec![row(&[Some("b")], Some(2.0)), row(&[Some("a")], Some(3.0))]),
        QueryOutcome::Rows(vec![row(&[], Some(4.0))]),
    ]));
    assert_ne!(first.encode(), second.encode());
    second.update(&Refresh::Results(vec![
        QueryOutcome::Rows(vec![row(&[], Some(9.0))]),
        QueryOutcome::Rows(vec![row(&[Some("c")], Some(9.0))]),
    ]));
    second.update(&Refresh::Results(vec![
        QueryOutcome::Rows(vec![row(&[], Some(1.0))]),
        QueryOutcome::Rows(vec![row(&[Some("a")], Some(3.0)), row(&[Some("b")], Some(2.0))]),
        QueryOutcome::Rows(vec![row(&[], Some(4.0))]),
    ]));
    assert_eq!(first.encode(), second.encode());

    let body = String::from_utf8(first.encode().unwrap()).unwrap();
    assert_eq!(
        body,
        "# HELP aa_total help for aa_total\n\
         # TYPE aa_total gauge\n\
         aa_total 4\n\
         # HELP by_kind help for by_kind\n\
         # TYPE by_kind gauge\n\
         by_kind{kind=\"a\"} 3\n\
         by_kind{kind=\"b\"} 2\n\
         # HELP zz_total help for zz_total\n\
         # TYPE zz_total gauge\n\
         zz_total 1\n"
    );
    let answer = first.scrape(&Refresh::NoClient);
    assert_eq!(answer.body, Some(body.into_bytes()));
}
