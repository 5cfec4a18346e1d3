use harrow::bench::commands::{
    build_task_command, docker_rm_command, docker_run_command, health_check_passed,
    health_check_request, image_id_command, image_inspect_command, loadgen_image, needs_warmup,
    remote_scratch_path, remove_file_command, rendered_template_name, seconds_arg, server_command,
    spinr_command, spinr_config_path, ssh_destination, vegeta_attack_command, vegeta_plan,
    vegeta_target_path,
};
use harrow::bench::config::{
    base_url, default_results_dir, load_profile, run_defaults, server_address, target_descriptor,
    validate_common_config, CommonRunConfig, CompareRunConfig, DeploymentMode, LoadGeneratorKind,
    RunMode, SingleRunConfig,
};
use harrow::bench::plan::{run_compare, run_single};
use harrow::bench::summary::{summary_markdown, SummaryCase, SummaryPage, SummaryResult};
use harrow::bench::labels::{
    accent, case_svg_filename, compare_side_rank, container_name, format_optional_u32,
    format_status_code_map, markdown_link, markdown_link_opt, result_key, run_key,
    sanitize_label, telemetry_svg_filename, trim_text, xml_escape,
};
use harrow::bench::perf_args::{parse_perf_args, perf_results_dir, PerfArgsError};
use harrow::bench::image_check::{
    trim, CommandHost, CommandOutcome, ImageCheck, ImageCheckAction, ImageCheckStep, ImageRole,
};
use harrow::bench::ordering::sorted_result_order;
use harrow::bench::perf_report::{bench_url, load_test_command, perf_report, phase_plan, PerfCells};
use harrow::bench::schema::CompareSide;
use harrow::bench::template::{
    harness_template_context, render_template_str, rendering_result, resolved_concurrency,
    ContextValue, RenderFailure, TemplateContext,
};
use harrow::bench::metrics::{validate_counts, CountsVerdict};
use harrow::bench::server_args::{parse_port, DEFAULT_PORT};

#[test]
fn labels_are_sanitized() {
    assert_eq!(sanitize_label("harrow-tokio_v1"), "harrow-tokio_v1");
    assert_eq!(sanitize_label("a b/c:d"), "a-b-c-d");
    assert_eq!(sanitize_label("é"), "-");
    assert_eq!(sanitize_label(""), "");
    let once = sanitize_label("x y");
    assert_eq!(sanitize_label(&once), once);
}

#[test]
fn keys_and_file_names() {
    assert_eq!(run_key("harrow tokio", "json/1kb"), "harrow-tokio_json-1kb");
    assert_eq!(container_name("harrow.tokio"), "bench-harrow-tokio");
    assert_eq!(case_svg_filename("text c32"), "case-text-c32.svg");
    assert_eq!(telemetry_svg_filename("text"), "case-text-telemetry.svg");
    assert_eq!(result_key("text", "axum 0.8"), "text__axum-0-8");
}

#[test]
fn markdown_links() {
    assert_eq!(markdown_link("raw/a.json", "json"), "[json](./raw/a.json)");
    assert_eq!(markdown_link_opt(Some("p.svg"), "flamegraph"), "[flamegraph](./p.svg)");
    assert_eq!(markdown_link_opt(None, "flamegraph"), "-");
}

#[test]
fn numbers_and_status_codes() {
    assert_eq!(format_optional_u32(Some(0)), "0");
    assert_eq!(format_optional_u32(Some(4_294_967_295)), "4294967295");
    assert_eq!(format_optional_u32(None), "-");
    assert_eq!(format_status_code_map(&Vec::new()), "-");
    assert_eq!(
        format_status_code_map(&vec![("200".to_string(), 980), ("503".to_string(), 20)]),
        "200:980, 503:20"
    );
    assert_eq!(format_status_code_map(&vec![("0".to_string(), 1)]), "0:1");
}

#[test]
fn text_is_trimmed() {
    assert_eq!(trim_text("short", 10), "short");
    assert_eq!(trim_text("exactly", 7), "exactly");
    assert_eq!(trim_text("abcdefgh", 5), "abcd...");
    assert_eq!(trim_text("abc", 0), "...");
    assert_eq!(trim_text("héllo wörld", 4), "hél...");
}

#[test]
fn xml_is_escaped() {
    assert_eq!(
        xml_escape(r#"<a href="x">Tom & 'Jerry'</a>"#),
        "&lt;a href=&quot;x&quot;&gt;Tom &amp; &apos;Jerry&apos;&lt;/a&gt;"
    );
    assert_eq!(xml_escape("plain"), "plain");
    assert_eq!(xml_escape("&amp;"), "&amp;amp;");
}

#[test]
fn sides_and_accents() {
    assert_eq!(compare_side_rank(Some(CompareSide::Left)), 0);
    assert_eq!(compare_side_rank(Some(CompareSide::Right)), 1);
    assert_eq!(compare_side_rank(None), 2);
    assert_eq!(accent(0), ("#ea580c", "#fff7ed"));
    assert_eq!(accent(1), ("#0f766e", "#ecfdf5"));
    assert_eq!(accent(2), ("#1d4ed8", "#eff6ff"));
    assert_eq!(accent(3), ("#b45309", "#fef3c7"));
    assert_eq!(accent(4), accent(0));
}

#[test]
fn config_defaults_and_validation() {
    let config = CommonRunConfig::default();
    assert_eq!(config.deployment_mode, DeploymentMode::Local);
    assert_eq!(config.suite_path, "harrow-bench/suites/http-basic.toml");
    assert_eq!(config.registry_path, "harrow-bench/implementations.toml");
    assert_eq!(config.ssh_user, "alpine");
    assert_eq!(config.port, 3090);
    assert_eq!(config.duration_secs, 30);
    assert_eq!(config.warmup_secs, 5);
    assert!(config.build_missing);
    assert!(validate_common_config(&config).is_ok());

    let mut remote = config.clone();
    remote.deployment_mode = DeploymentMode::Remote;
    remote.server_ssh = Some("10.0.0.1".to_string());
    remote.client_ssh = Some("10.0.0.2".to_string());
    assert_eq!(
        validate_common_config(&remote),
        Err("--server-ssh, --client-ssh, and --server-private-ip are required in remote mode"
            .to_string())
    );
    remote.server_private_ip = Some("172.31.0.1".to_string());
    assert!(validate_common_config(&remote).is_ok());
}

#[test]
fn results_dir_and_descriptors() {
    let labels = vec!["harrow tokio".to_string(), "axum".to_string()];
    assert_eq!(
        default_results_dir(RunMode::Single, "2024-01-01T00-00-00Z", "http basic", &labels),
        "artifacts/bench/2024-01-01T00-00-00Z-http-basic-harrow-tokio"
    );
    assert_eq!(
        default_results_dir(RunMode::Compare, "ts", "suite", &labels),
        "artifacts/bench/ts-suite-harrow-tokio-vs-axum"
    );

    let mut config = CommonRunConfig::default();
    assert_eq!(server_address(&config), "127.0.0.1");
    assert_eq!(base_url(&config), "http://127.0.0.1:3090");
    let target = target_descriptor(&config);
    assert_eq!(target.server_host, "localhost");
    assert_eq!(target.client_host, "localhost");
    assert_eq!(target.server_private_ip, "127.0.0.1");
    assert_eq!(target.port, 3090);
    config.server_private_ip = Some("10.1.2.3".to_string());
    config.port = 80;
    assert_eq!(base_url(&config), "http://10.1.2.3:80");

    let defaults = run_defaults(&config);
    assert_eq!((defaults.duration_secs, defaults.warmup_secs), (30, 5));
    let load = load_profile(&config, Some(32), None, Some(10), None);
    assert_eq!(load.concurrency, Some(32));
    assert_eq!(load.rate, None);
    assert_eq!(load.duration_secs, 10);
    assert_eq!(load.warmup_secs, 5);
}

#[test]
fn container_and_image_commands() {
    assert_eq!(
        docker_rm_command("bench-x"),
        "docker rm -f bench-x >/dev/null 2>&1 || true"
    );
    assert_eq!(
        docker_run_command("bench-x", "img:1", "/srv --port 3090"),
        "docker run -d --name bench-x --network host --ulimit nofile=65535:65535 img:1 /srv --port 3090"
    );
    assert_eq!(server_command("/srv", &Vec::new()), "/srv");
    assert_eq!(
        server_command("/srv", &vec!["--a".to_string(), "--b 2".to_string()]),
        "/srv --a --b 2"
    );
    assert_eq!(
        image_inspect_command("spinr:arm64"),
        "docker image inspect spinr:arm64 >/dev/null 2>&1 && echo ok"
    );
    assert_eq!(image_id_command("x"), "docker image inspect -f '{{.Id}}' x");
    assert_eq!(build_task_command("docker:loadgen:spinr"), "mise run docker:loadgen:spinr");
    assert_eq!(remove_file_command("/tmp/k.toml"), "rm -f /tmp/k.toml");
    assert_eq!(ssh_destination("alpine", "1.2.3.4"), "alpine@1.2.3.4");
    assert_eq!(
        loadgen_image(LoadGeneratorKind::Spinr),
        ("spinr:arm64", Some("docker:loadgen:spinr"))
    );
    assert_eq!(
        loadgen_image(LoadGeneratorKind::Vegeta),
        ("vegeta:arm64", Some("docker:loadgen:vegeta"))
    );
    assert_eq!(rendered_template_name("text", LoadGeneratorKind::Spinr), "text.toml");
    assert_eq!(rendered_template_name("text", LoadGeneratorKind::Vegeta), "text.targets.txt");
}

#[test]
fn load_generator_commands() {
    assert_eq!(remote_scratch_path("k", ".toml"), "/tmp/k.toml");
    assert_eq!(spinr_config_path(DeploymentMode::Local, "k", "/r/t.toml"), "/r/t.toml");
    assert_eq!(spinr_config_path(DeploymentMode::Remote, "k", "/r/t.toml"), "/tmp/k.toml");
    assert_eq!(vegeta_target_path(DeploymentMode::Remote, "k", "/r/t.txt"), "/tmp/k.targets");
    assert_eq!(
        spinr_command("/tmp/k.toml"),
        "docker run --rm --network host --ulimit nofile=65535:65535 -v /tmp/k.toml:/bench.toml spinr:arm64 bench /bench.toml -j"
    );
    assert_eq!(seconds_arg(30), "30s");
    assert_eq!(
        vegeta_attack_command("/t.txt", "30s", 1000, 128, true),
        "docker run --rm --network host -v /t.txt:/targets.txt vegeta:arm64 attack -targets=/targets.txt -duration=30s -rate=1000/s -workers=128 -max-workers=128 | docker run --rm -i vegeta:arm64 report -type=json"
    );
    assert_eq!(
        vegeta_attack_command("/t.txt", "5s", 10, 1, false),
        "docker run --rm --network host -v /t.txt:/targets.txt vegeta:arm64 attack -targets=/targets.txt -duration=5s -rate=10/s -workers=1 -max-workers=1 >/dev/null"
    );
    let config = CommonRunConfig::default();
    let plan = vegeta_plan(&config, None, Some(0), None, None);
    assert_eq!(plan.duration_secs, 30);
    assert_eq!(plan.warmup_secs, 0);
    assert_eq!(plan.rate, 1000);
    assert_eq!(plan.workers, 128);
    assert!(!needs_warmup(&plan));
    let plan = vegeta_plan(&config, Some(60), None, Some(5000), Some(64));
    assert_eq!((plan.duration_secs, plan.warmup_secs, plan.rate, plan.workers), (60, 5, 5000, 64));
    assert!(needs_warmup(&plan));
}

#[test]
fn health_check_request_and_answer() {
    assert_eq!(
        health_check_request("127.0.0.1", "/health"),
        "GET /health HTTP/1.1\r\nHost: 127.0.0.1\r\nConnection: close\r\n\r\n"
    );
    assert!(health_check_passed("HTTP/1.1 200 OK\r\n"));
    assert!(health_check_passed("HTTP/1.0 200"));
    assert!(!health_check_passed("HTTP/1.1 503 Service Unavailable"));
    assert!(!health_check_passed("HTTP/1.1 20"));
    assert!(!health_check_passed(""));
}

fn args(list: &[&str]) -> Vec<String> {
    list.iter().map(|s| s.to_string()).collect()
}

#[test]
fn perf_args_full_command_line() {
    let parsed = parse_perf_args(&args(&[
        "prog",
        "--server-ssh",
        "52.1.2.3",
        "--client-ssh",
        "54.1.2.3",
        "--server-private",
        "172.31.1.1",
        "--client-private",
        "172.31.1.2",
        "--instance-type",
        "c8g.16xlarge",
        "--port",
        "+8080",
        "--duration",
        "10",
        "--warmup",
        "0",
        "--ssh-user",
        "ec2-user",
    ]))
    .unwrap();
    assert_eq!(parsed.server_ssh, "52.1.2.3");
    assert_eq!(parsed.client_ssh, "54.1.2.3");
    assert_eq!(parsed.server_private, "172.31.1.1");
    assert_eq!(parsed.client_private, "172.31.1.2");
    assert_eq!(parsed.instance_type, "c8g.16xlarge");
    assert_eq!(parsed.port, 8080);
    assert_eq!(parsed.duration, 10);
    assert_eq!(parsed.warmup, 0);
    assert_eq!(parsed.ssh_user, "ec2-user");
    assert_eq!(parsed.results_dir, None);
    assert_eq!(parsed.results_dir_or_default("ts"), "docs/perf/c8g.16xlarge/ts");
}

#[test]
fn perf_args_defaults_and_last_value_wins() {
    let parsed = parse_perf_args(&args(&[
        "prog",
        "--server-ssh",
        "a",
        "--server-ssh",
        "b",
        "--client-ssh",
        "c",
        "--server-private",
        "d",
        "--client-private",
        "e",
        "--instance-type",
        "t",
        "--results-dir",
        "out",
    ]))
    .unwrap();
    assert_eq!(parsed.server_ssh, "b");
    assert_eq!(parsed.ssh_user, "alpine");
    assert_eq!(parsed.port, 3090);
    assert_eq!(parsed.duration, 60);
    assert_eq!(parsed.warmup, 5);
    assert_eq!(parsed.results_dir_or_default("ts"), "out");
    assert_eq!(perf_results_dir("m7i", "2024"), "docs/perf/m7i/2024");
}

#[test]
fn perf_args_errors() {
    assert_eq!(parse_perf_args(&args(&["prog", "-h"])), Err(PerfArgsError::Help));
    assert_eq!(
        parse_perf_args(&args(&["prog", "--server-ssh", "a", "--bogus"])),
        Err(PerfArgsError::UnknownOption("--bogus".to_string()))
    );
    assert_eq!(
        parse_perf_args(&args(&["prog", "--client-ssh", "c"])),
        Err(PerfArgsError::Required("--server-ssh"))
    );
    assert_eq!(
        parse_perf_args(&args(&["prog", "--port"])),
        Err(PerfArgsError::MissingValue("--port".to_string()))
    );
    assert_eq!(
        parse_perf_args(&args(&["prog", "--port", "70000"])),
        Err(PerfArgsError::InvalidNumber("--port"))
    );
    assert_eq!(
        parse_perf_args(&args(&["prog", "--duration", "-1"])),
        Err(PerfArgsError::InvalidNumber("--duration"))
    );
    assert_eq!(
        parse_perf_args(&args(&["prog", "--warmup", ""])),
        Err(PerfArgsError::InvalidNumber("--warmup"))
    );
    // The scan stops at help before it sees the bad number.
    assert_eq!(
        parse_perf_args(&args(&["prog", "--help", "--port", "x"])),
        Err(PerfArgsError::Help)
    );
    // A value is taken as it is, even when it looks like an option.
    assert_eq!(
        parse_perf_args(&args(&["prog", "--ssh-user", "-h"])),
        Err(PerfArgsError::Required("--server-ssh"))
    );
}

#[test]
fn template_context_and_rendering() {
    let config = CommonRunConfig::default();
    let mut context =
        harness_template_context(&config, "http-basic", "text", None, Some(2), Some(500), Some(8));
    let mut extra = TemplateContext::new();
    extra.insert("path", ContextValue::Text("/hello".to_string()));
    extra.insert("workers", ContextValue::Integer(4));
    context.extend(extra);

    let rendered = render_template_str(
        "GET {{ base_url }}{{ path }} {{ duration_secs }} {{ warmup_secs }} {{ rate }} {{ connections }} {{ workers }} {{ suite }}/{{ case_id }}",
        &context,
    );
    assert_eq!(
        rendered,
        Ok("GET http://127.0.0.1:3090/hello 30 2 500 8 4 http-basic/text".to_string())
    );

    let missing = render_template_str("{{ nope }}", &context).unwrap_err();
    assert!(missing.starts_with("failed to render template: "));
    let broken = render_template_str("{{ unclosed", &context).unwrap_err();
    assert!(broken.starts_with("failed to load template: "));

    assert_eq!(
        rendering_result(Err(RenderFailure::Fetch("gone".to_string()))),
        Err("failed to fetch template: gone".to_string())
    );
    assert_eq!(rendering_result(Ok("x".to_string())), Ok("x".to_string()));
}

#[test]
fn template_context_without_optional_settings() {
    let context = harness_template_context(&CommonRunConfig::default(), "s", "c", None, None, None, None);
    assert!(render_template_str("{{ rate }}", &context).is_err());
    assert_eq!(
        render_template_str("{{ port }} {{ server_private_ip }}", &context),
        Ok("3090 127.0.0.1".to_string())
    );
}

fn perf_args_fixture() -> harrow::bench::perf_args::PerfArgs {
    parse_perf_args(&args(&[
        "prog",
        "--server-ssh",
        "52.1.2.3",
        "--client-ssh",
        "54.1.2.3",
        "--server-private",
        "172.31.1.1",
        "--client-private",
        "172.31.1.2",
        "--instance-type",
        "c8g.16xlarge",
        "--duration",
        "30",
    ]))
    .unwrap()
}

#[test]
fn perf_plan_phases() {
    let a = phase_plan(0);
    assert_eq!(a.len(), 24);
    assert_eq!(a[0].key, "a_harrow_text_c1");
    assert_eq!(a[0].path, "bare/text");
    assert_eq!(a[5].key, "a_harrow_json_1kb_c8");
    assert_eq!(a[23].key, "a_axum_msgpack_1kb_c128");
    assert_eq!(a[23].label_cells, "axum | /bare/msgpack/1kb | 128");
    let b = phase_plan(1);
    assert_eq!(b.len(), 54);
    assert_eq!(b[9].key, "b_timeout_text_c1");
    assert_eq!(b[9].path, "timeout/text");
    assert_eq!(b[53].key, "b_full_msgpack_1kb_c128");
    let c = phase_plan(2);
    assert_eq!(c.len(), 9);
    assert_eq!(c[4].key, "c_o11y_json_1kb_c32");
    assert_eq!(c[4].label_cells, "/json/1kb | 32");

    let args = perf_args_fixture();
    assert_eq!(bench_url(&args, "bare/text"), "http://172.31.1.1:3090/bare/text");
    assert_eq!(
        load_test_command("http://h/x", 32, 60, 5),
        "docker run --rm --network host --ulimit nofile=65535:65535 spinr load-test --max-throughput -c 32 -d 60 -w 5 -j http://h/x"
    );
}

#[test]
fn perf_report_tables() {
    let cells = |rps: &str| PerfCells {
        rps: rps.to_string(),
        p50: "0.5".to_string(),
        p99: "1.2".to_string(),
        p999: "3.4".to_string(),
    };
    let results = vec![
        ("a_harrow_text_c1".to_string(), cells("100")),
        ("c_o11y_text_c32".to_string(), cells("7")),
        ("a_harrow_text_c1".to_string(), cells("120")),
    ];
    let report = perf_report(&perf_args_fixture(), "2024-01-01 00:00:00 UTC", &results);
    assert!(report.starts_with(
        "# Performance Test Results\n\nInstance: c8g.16xlarge\nServer: 52.1.2.3 (private: 172.31.1.1:3090)\nClient: 54.1.2.3 (private: 172.31.1.2)\nDuration: 30s | Warmup: 5s\nDate: 2024-01-01 00:00:00 UTC\n\n## Phase A"
    ));
    assert!(report.contains("| harrow | /bare/text | 1 | 120 | 0.5 | 1.2 | 3.4 |\n"));
    assert!(report.contains("| axum | /bare/text | 1 | - | - | - | - |\n"));
    assert!(report.contains("| cors | /json/1kb | 32 | - | - | - | - |\n"));
    assert!(report.contains("| /text | 32 | 7 | 0.5 | 1.2 | 3.4 |\n"));
    assert_eq!(report.lines().filter(|l| l.starts_with("| ")).count(), 24 + 54 + 9 + 3);
    assert!(report.ends_with("| /msgpack/1kb | 128 | - | - | - | - |\n"));
}

#[test]
fn trim_removes_unicode_whitespace() {
    assert_eq!(trim("  error: boom \n"), "error: boom");
    assert_eq!(trim("\u{3000}x y\u{a0}"), "x y");
    assert_eq!(trim(" \t\n "), "");
    assert_eq!(trim(""), "");
    assert_eq!(trim("inner  space"), "inner  space");
}

fn exited(success: bool, stderr: &str) -> CommandOutcome {
    CommandOutcome::Exited { success, stderr: stderr.to_string() }
}

fn finish_err(a: ImageCheckAction) -> String {
    match a {
        ImageCheckAction::Finish(Err(e)) => e,
        other => panic!("expected a failure, got {other:?}"),
    }
}

#[test]
fn server_image_check_builds_missing_local_image() {
    let check = ImageCheck {
        role: ImageRole::Server,
        mode: DeploymentMode::Local,
        image: "harrow:perf".to_string(),
        build_task: Some("docker:harrow".to_string()),
        build_missing: true,
    };
    match check.start() {
        ImageCheckAction::Run { step, host, command } => {
            assert_eq!(step, ImageCheckStep::Inspect);
            assert_eq!(host, CommandHost::Local);
            assert_eq!(command, "docker image inspect harrow:perf >/dev/null 2>&1 && echo ok");
        }
        other => panic!("unexpected {other:?}"),
    }
    assert!(matches!(
        check.next(ImageCheckStep::Inspect, exited(true, "")),
        ImageCheckAction::Finish(Ok(()))
    ));
    match check.next(ImageCheckStep::Inspect, exited(false, "")) {
        ImageCheckAction::Run { step, host, command } => {
            assert_eq!(step, ImageCheckStep::Build);
            assert_eq!(host, CommandHost::Local);
            assert_eq!(command, "mise run docker:harrow");
        }
        other => panic!("unexpected {other:?}"),
    }
    assert_eq!(
        finish_err(check.next(ImageCheckStep::Build, exited(false, "  no such task\n"))),
        "local build task docker:harrow failed: no such task"
    );
    assert_eq!(
        finish_err(check.next(ImageCheckStep::Build, CommandOutcome::NotRun("sh missing".to_string()))),
        "failed to run local build task docker:harrow: sh missing"
    );
    assert!(matches!(
        check.next(ImageCheckStep::Build, exited(true, "")),
        ImageCheckAction::Run { step: ImageCheckStep::Recheck, .. }
    ));
    assert_eq!(
        finish_err(check.next(ImageCheckStep::Recheck, exited(false, ""))),
        "missing local image 'harrow:perf' and no successful build path was available"
    );
    assert_eq!(
        finish_err(check.next(ImageCheckStep::Recheck, CommandOutcome::NotRun("x".to_string()))),
        "failed to re-check image harrow:perf: x"
    );
}

#[test]
fn remote_and_load_generator_image_checks() {
    let remote = ImageCheck {
        role: ImageRole::Server,
        mode: DeploymentMode::Remote,
        image: "srv".to_string(),
        build_task: Some("t".to_string()),
        build_missing: true,
    };
    assert!(matches!(remote.start(), ImageCheckAction::Run { host: CommandHost::Server, .. }));
    assert_eq!(
        finish_err(remote.next(ImageCheckStep::Inspect, exited(false, ""))),
        "missing remote image 'srv' on server host"
    );
    assert_eq!(
        finish_err(remote.next(ImageCheckStep::Inspect, CommandOutcome::NotRun("ssh".to_string()))),
        "failed to inspect remote image srv: ssh"
    );

    let loadgen = ImageCheck {
        role: ImageRole::LoadGenerator,
        mode: DeploymentMode::Remote,
        image: "vegeta:arm64".to_string(),
        build_task: Some("docker:loadgen:vegeta".to_string()),
        build_missing: true,
    };
    assert!(matches!(loadgen.start(), ImageCheckAction::Run { host: CommandHost::Client, .. }));
    assert_eq!(
        finish_err(loadgen.next(ImageCheckStep::Inspect, exited(false, ""))),
        "missing remote load generator image 'vegeta:arm64' on client host"
    );

    let local_no_build = ImageCheck {
        role: ImageRole::LoadGenerator,
        mode: DeploymentMode::Local,
        image: "spinr:arm64".to_string(),
        build_task: Some("docker:loadgen:spinr".to_string()),
        build_missing: false,
    };
    assert_eq!(
        finish_err(local_no_build.next(ImageCheckStep::Inspect, exited(false, ""))),
        "missing local load generator image 'spinr:arm64'"
    );
    assert_eq!(
        finish_err(local_no_build.next(ImageCheckStep::Inspect, CommandOutcome::NotRun("e".to_string()))),
        "failed to inspect local load generator image spinr:arm64: e"
    );
    assert_eq!(
        finish_err(local_no_build.next(ImageCheckStep::Build, exited(false, "oops"))),
        "load generator build task docker:loadgen:spinr failed: oops"
    );
}

#[test]
fn results_sort_by_side_then_label_stably() {
    let keys = vec![
        (None, "b".to_string()),
        (Some(CompareSide::Right), "x".to_string()),
        (Some(CompareSide::Left), "z".to_string()),
        (None, "a".to_string()),
        (None, "b".to_string()),
        (None, "B".to_string()),
        (None, "ab".to_string()),
    ];
    assert_eq!(sorted_result_order(&keys), vec![2, 1, 5, 3, 6, 0, 4]);
    assert!(sorted_result_order(&Vec::new()).is_empty());
}

#[test]
fn case_concurrency_prefers_its_own_setting() {
    let mut context = TemplateContext::new();
    assert_eq!(resolved_concurrency(None, &context), None);
    context.insert("concurrency", ContextValue::Integer(16));
    assert_eq!(resolved_concurrency(None, &context), Some(16));
    context.insert("connections", ContextValue::Integer(64));
    assert_eq!(resolved_concurrency(None, &context), Some(64));
    assert_eq!(resolved_concurrency(Some(8), &context), Some(8));
    context.insert("connections", ContextValue::Text("many".to_string()));
    assert_eq!(resolved_concurrency(None, &context), None);
    context.insert("connections", ContextValue::Integer((1i64 << 32) + 5));
    assert_eq!(resolved_concurrency(None, &context), Some(5));
    assert_eq!(context.get("connections"), Some(&ContextValue::Integer((1i64 << 32) + 5)));
    assert_eq!(context.get("workers"), None);
}

#[test]
fn request_counts_decide_a_run() {
    assert_eq!(validate_counts(Some(100), Some(0), Some(100)), CountsVerdict::Passed);
    assert_eq!(validate_counts(Some(100), None, None), CountsVerdict::Passed);
    assert_eq!(validate_counts(Some(0), Some(0), None), CountsVerdict::NoSuccess);
    assert_eq!(validate_counts(None, Some(3), None), CountsVerdict::NoSuccess);
    assert_eq!(
        validate_counts(Some(97), Some(3), None),
        CountsVerdict::Failed { failed: 3, total: 100 }
    );
    assert_eq!(
        validate_counts(Some(97), Some(3), Some(120)),
        CountsVerdict::Failed { failed: 3, total: 120 }
    );
}

#[test]
fn server_port_from_arguments() {
    let args = |xs: &[&str]| xs.iter().map(|x| x.to_string()).collect::<Vec<String>>();
    assert_eq!(parse_port(&args(&["server"])), Some(DEFAULT_PORT));
    assert_eq!(parse_port(&args(&["server", "--port", "8080"])), Some(8080));
    assert_eq!(parse_port(&args(&["server", "--port", "+81", "--port", "82"])), Some(81));
    assert_eq!(parse_port(&args(&["server", "--port"])), Some(3000));
    assert_eq!(parse_port(&args(&["server", "--port", "70000"])), None);
    assert_eq!(parse_port(&args(&["server", "--port", "x"])), None);
    assert_eq!(parse_port(&args(&["--port", "1", "x"])), Some(1));
}

#[test]
fn single_and_compare_runs_are_planned() {
    let known = vec!["harrow-tokio".to_string(), "axum".to_string()];
    let single = SingleRunConfig {
        common: CommonRunConfig::default(),
        implementation_id: "axum".to_string(),
    };
    let plan = run_single(single, &known).unwrap();
    assert_eq!(plan.mode, RunMode::Single);
    assert_eq!(plan.variants.len(), 1);
    assert_eq!(plan.variants[0].implementation_id, "axum");
    assert_eq!(plan.variants[0].compare_side, None);
    assert_eq!(plan.variant_labels(), vec!["axum".to_string()]);

    let unknown = SingleRunConfig {
        common: CommonRunConfig::default(),
        implementation_id: "rocket".to_string(),
    };
    assert_eq!(run_single(unknown, &known).err().unwrap(), "unknown implementation 'rocket'");

    let mut remote = CommonRunConfig::default();
    remote.deployment_mode = DeploymentMode::Remote;
    let invalid = SingleRunConfig { common: remote.clone(), implementation_id: "axum".to_string() };
    assert_eq!(
        run_single(invalid, &known).err().unwrap(),
        "--server-ssh, --client-ssh, and --server-private-ip are required in remote mode"
    );

    let compare = CompareRunConfig {
        common: CommonRunConfig::default(),
        left_id: "harrow-tokio".to_string(),
        right_id: "axum".to_string(),
    };
    let plan = run_compare(compare, &known).unwrap();
    assert_eq!(plan.mode, RunMode::Compare);
    assert_eq!(plan.variant_labels(), vec!["harrow-tokio".to_string(), "axum".to_string()]);
    assert_eq!(plan.variants[0].compare_side, Some(CompareSide::Left));
    assert_eq!(plan.variants[1].compare_side, Some(CompareSide::Right));

    let both_unknown = CompareRunConfig {
        common: remote,
        left_id: "a".to_string(),
        right_id: "b".to_string(),
    };
    assert_eq!(run_compare(both_unknown, &known).err().unwrap(), "unknown implementation 'a'");
    let right_unknown = CompareRunConfig {
        common: CommonRunConfig::default(),
        left_id: "axum".to_string(),
        right_id: "b".to_string(),
    };
    assert_eq!(run_compare(right_unknown, &known).err().unwrap(), "unknown implementation 'b'");
}

fn summary_result(side: Option<CompareSide>, label: &str, p99: &str) -> SummaryResult {
    SummaryResult {
        side,
        label: label.to_string(),
        success_pct: "100.0".to_string(),
        status_codes: vec![("200".to_string(), 10)],
        rps: "1.500".to_string(),
        p50: "0.100".to_string(),
        p95: "0.200".to_string(),
        p99: p99.to_string(),
        p999: "0.400".to_string(),
        loadgen_raw: format!("raw/{label}.json"),
        perf_report: None,
        perf_script: None,
        flamegraph: None,
        server_cpu: None,
        server_net: None,
        client_cpu: None,
        client_net: None,
        vmstat: None,
    }
}

fn summary_page(mode: RunMode, cases: Vec<SummaryCase>) -> SummaryPage {
    SummaryPage {
        run_label: "run-1".to_string(),
        suite: "http-basic".to_string(),
        mode,
        mode_name: "compare".to_string(),
        deployment: "local".to_string(),
        server_host: "localhost".to_string(),
        server_private_ip: "127.0.0.1".to_string(),
        port: 3090,
        client_host: "localhost".to_string(),
        duration_secs: 30,
        warmup_secs: 5,
        git_sha: "abc".to_string(),
        git_dirty: true,
        completed_at_utc: "now".to_string(),
        cases,
    }
}

#[test]
fn summary_page_text() {
    let mut right = summary_result(Some(CompareSide::Right), "axum", "0.350");
    right.flamegraph = Some("perf/axum.svg".to_string());
    let left = summary_result(Some(CompareSide::Left), "harrow", "0.300");
    let case = SummaryCase {
        id: "text".to_string(),
        generator: "spinr".to_string(),
        concurrency: Some(8),
        rate: None,
        rendered_template: "rendered/text.toml".to_string(),
        telemetry: true,
        rps_delta: "+1.00".to_string(),
        results: vec![right, left],
    };
    let text = summary_markdown(&summary_page(RunMode::Compare, vec![case]));
    let expected = "# Benchmark Results\n\n![Run Dashboard](summary.svg)\n\n\
Run: `run-1`\nSuite: `http-basic`\nMode: `compare`\nDeployment: `local`\n\
Server: `localhost` (`127.0.0.1:3090`)\nClient: `localhost`\n\
Defaults: 30s duration / 5s warmup\nGit: `abc` (dirty)\nCompleted: now\n\n\
## Runs\n\n\
| Case | Implementation | Generator | Concurrency | Rate | Success % | Codes | RPS | p50 (ms) | p95 (ms) | p99 (ms) | p999 (ms) |\n\
|------|----------------|-----------|-------------|------|-----------|-------|-----|----------|----------|----------|-----------|\n\
| text | harrow | spinr | 8 | - | 100.0% | 200:10 | 1.500 | 0.100 | 0.200 | 0.300 | 0.400 |\n\
| text | axum | spinr | 8 | - | 100.0% | 200:10 | 1.500 | 0.100 | 0.200 | 0.350 | 0.400 |\n\n\
## Comparison\n\n\
| Case | Left | Right | RPS Delta % | Left p99 (ms) | Right p99 (ms) |\n\
|------|------|-------|-------------|---------------|----------------|\n\
| text | harrow | axum | +1.00% | 0.300 | 0.350 |\n\n\
## Case Graphs\n\n### text\n\n![text graph](./case-text.svg)\n\n\
## OS Telemetry\n\n### text\n\n![text telemetry](./case-text-telemetry.svg)\n\n\
## Artifacts\n\n\
| Case | Implementation | Rendered Template | Loadgen Raw | Perf Report | Perf Script | Flamegraph | Server CPU | Server Net | Client CPU | Client Net | VMstat |\n\
|------|----------------|-------------------|-------------|-------------|-------------|------------|------------|------------|------------|------------|--------|\n\
| text | harrow | [rendered](./rendered/text.toml) | [json](./raw/harrow.json) | - | - | - | - | - | - | - | - |\n\
| text | axum | [rendered](./rendered/text.toml) | [json](./raw/axum.json) | - | - | [flamegraph](./perf/axum.svg) | - | - | - | - | - |\n\
\n## Flamegraphs\n\n### text / axum\n\n![axum flamegraph](./perf/axum.svg)\n\n";
    assert_eq!(text, expected);
}

#[test]
fn single_run_summary_has_no_optional_sections() {
    let case = SummaryCase {
        id: "a b".to_string(),
        generator: "vegeta".to_string(),
        concurrency: None,
        rate: Some(100),
        rendered_template: "r".to_string(),
        telemetry: false,
        rps_delta: String::new(),
        results: vec![summary_result(None, "x", "1")],
    };
    let mut page = summary_page(RunMode::Single, vec![case]);
    page.git_dirty = false;
    let text = summary_markdown(&page);
    assert!(text.contains("Git: `abc`\n"));
    assert!(text.contains("| a b | x | vegeta | - | 100 | "));
    assert!(text.contains("![a b graph](./case-a-b.svg)"));
    assert!(!text.contains("## Comparison"));
    assert!(!text.contains("## OS Telemetry"));
    assert!(!text.contains("## Flamegraphs"));
    assert!(text.ends_with("| - | - | - | - | - | - | - | - |\n"));
}
