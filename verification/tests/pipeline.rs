use shiftnrg_cli::binding::{binding_for, RuntimeApi};
use shiftnrg_cli::cli::{Cli, RunCmd, SharedParams, Subcommand, ValidationWorkerCommand};
use shiftnrg_cli::command::{
    exit_code, prepare, route, run, start_node, Failure, Invocation, MaintenancePlan, Operation,
};
use shiftnrg_cli::dispatcher::{
    plan_engine, step, Action, EnginePlan, Event, NodeRole, Phase, ServiceStartError, Step,
};
use shiftnrg_cli::environment::{AddressFormatState, AlreadyWritten};
use shiftnrg_cli::loader::{complete_load, SpecDocument, SpecLoadError, SpecPlan, SpecSource};
use shiftnrg_cli::options::{RunOptions, RunOptionsError};
use shiftnrg_cli::variant::{Generator, NetworkVariant, OverrideFlags};

fn run_cmd(chain: &str) -> RunCmd {
    RunCmd {
        chain: chain.to_string(),
        light: false,
        force_shiftNrg: false,
        force_secondary: false,
        force_tertiary: false,
        authority_discovery_enabled: false,
        grandpa_pause: vec![],
    }
}

fn shared(chain: &str) -> SharedParams {
    SharedParams { chain: chain.to_string() }
}

fn document() -> SpecDocument {
    SpecDocument {
        name: "Development".to_string(),
        protocol_id: "dev".to_string(),
        boot_nodes: vec![],
        genesis: vec![42],
    }
}

#[test]
fn secondary_dev_full_node_end_to_end() {
    let cli = Cli { subcommand: None, run: run_cmd("secondary-dev") };
    let invocation = run(&cli, "node");
    let plan = SpecPlan { variant: NetworkVariant::Secondary, source: SpecSource::BuiltIn(Generator::Development) };
    assert_eq!(invocation, Invocation::Node(plan));

    let prepared = prepare(plan, Ok(document()), AddressFormatState::new()).unwrap();
    assert_eq!(prepared.chain_spec().variant(), NetworkVariant::Secondary);
    assert_eq!(prepared.binding(), binding_for(NetworkVariant::Secondary));
    assert_eq!(
        prepared.environment(),
        AddressFormatState::Written(NetworkVariant::Secondary)
    );

    let engine = start_node(
        &prepared,
        cli.run.role(),
        cli.run.authority_discovery_enabled,
        &cli.run.grandpa_pause,
    );
    assert_eq!(
        engine,
        Ok(EnginePlan::Full {
            binding: binding_for(NetworkVariant::Secondary),
            authority_discovery_enabled: false,
            finality_voter_pause: None,
        })
    );

    let plan = engine.unwrap();
    assert_eq!(
        step(Phase::Configuring, Event::Configured(plan)),
        Step::Advance(Phase::Starting, Action::BuildEngine(plan))
    );
    assert_eq!(
        step(Phase::Starting, Event::EngineStarted),
        Step::Advance(Phase::Running, Action::AwaitCancellation)
    );
    assert_eq!(
        step(Phase::Running, Event::CancelRequested),
        Step::Advance(Phase::ShuttingDown, Action::RequestDrain)
    );
    assert_eq!(
        step(Phase::ShuttingDown, Event::Drained),
        Step::Advance(Phase::Stopped, Action::ExitClean)
    );
    assert_eq!(exit_code(&Ok(())), 0);
}

#[test]
fn run_resolves_the_run_identifier() {
    let mut cmd = run_cmd("specs/tertiary-custom.json");
    let cli = Cli { subcommand: None, run: cmd.clone() };
    assert_eq!(
        run(&cli, "node"),
        Invocation::Node(SpecPlan { variant: NetworkVariant::Tertiary, source: SpecSource::File })
    );
    cmd.force_shiftNrg = true;
    let forced = Cli { subcommand: None, run: cmd };
    assert_eq!(
        run(&forced, "node"),
        Invocation::Node(SpecPlan { variant: NetworkVariant::Primary, source: SpecSource::File })
    );
}

#[test]
fn run_with_empty_identifier_uses_the_executable_name() {
    let cli = Cli { subcommand: None, run: run_cmd("") };
    assert_eq!(
        run(&cli, "tertiary-node"),
        Invocation::Node(SpecPlan {
            variant: NetworkVariant::Tertiary,
            source: SpecSource::BuiltIn(Generator::Development)
        })
    );
    assert_eq!(
        run(&cli, "node"),
        Invocation::Node(SpecPlan {
            variant: NetworkVariant::Primary,
            source: SpecSource::BuiltIn(Generator::Staging)
        })
    );
}

#[test]
fn run_routes_each_maintenance_command() {
    let plan = SpecPlan { variant: NetworkVariant::Tertiary, source: SpecSource::BuiltIn(Generator::Development) };
    let cases = [
        (Subcommand::BuildSpec(shared("dev")), Operation::BuildSpec),
        (Subcommand::CheckBlock(shared("dev")), Operation::CheckBlock),
        (Subcommand::ExportBlocks(shared("dev")), Operation::ExportBlocks),
        (Subcommand::ExportState(shared("dev")), Operation::ExportState),
        (Subcommand::ImportBlocks(shared("dev")), Operation::ImportBlocks),
        (Subcommand::PurgeChain(shared("dev")), Operation::PurgeChain),
        (Subcommand::Revert(shared("dev")), Operation::Revert),
    ];
    for (subcommand, operation) in cases {
        let cli = Cli { subcommand: Some(subcommand), run: run_cmd("secondary.json") };
        assert_eq!(run(&cli, "node"), Invocation::Maintenance(operation, plan));
    }
}

#[test]
fn maintenance_command_takes_the_override_flags_of_the_run_options() {
    let mut cmd = run_cmd("");
    cmd.force_secondary = true;
    let cli = Cli { subcommand: Some(Subcommand::PurgeChain(shared("tertiary.json"))), run: cmd };
    assert_eq!(
        run(&cli, "node"),
        Invocation::Maintenance(
            Operation::PurgeChain,
            SpecPlan { variant: NetworkVariant::Secondary, source: SpecSource::File }
        )
    );
}

#[test]
fn validation_worker_passes_its_identifier_through() {
    let worker = ValidationWorkerCommand { mem_id: "shm-17".to_string() };
    let mut cmd = run_cmd("secondary-dev");
    cmd.force_tertiary = true;
    let cli = Cli { subcommand: Some(Subcommand::ValidationWorker(worker)), run: cmd };
    assert_eq!(run(&cli, "primary"), Invocation::Worker { mem_id: "shm-17".to_string() });
}

#[test]
fn load_spec_uses_the_flags_of_the_command_line() {
    let mut cmd = run_cmd("ignored");
    cmd.force_tertiary = true;
    assert_eq!(
        cmd.flags(),
        OverrideFlags { primary: false, secondary: false, tertiary: true }
    );
    let cli = Cli { subcommand: None, run: cmd };
    assert_eq!(
        cli.load_spec("secondary-dev", "node"),
        SpecPlan { variant: NetworkVariant::Tertiary, source: SpecSource::BuiltIn(Generator::Development) }
    );
}

#[test]
fn role_follows_the_light_flag() {
    let mut cmd = run_cmd("");
    assert_eq!(cmd.role(), NodeRole::Full);
    cmd.light = true;
    assert_eq!(cmd.role(), NodeRole::Light);
}

#[test]
fn prepare_fails_with_the_load_error() {
    let plan = SpecPlan { variant: NetworkVariant::Primary, source: SpecSource::File };
    let result = prepare(plan, Err("malformed".to_string()), AddressFormatState::new());
    assert_eq!(
        result.err(),
        Some(Failure::SpecLoad(SpecLoadError { message: "malformed".to_string() }))
    );
}

#[test]
fn prepare_refuses_a_second_write() {
    let plan = SpecPlan { variant: NetworkVariant::Primary, source: SpecSource::BuiltIn(Generator::Development) };
    let state = AddressFormatState::Written(NetworkVariant::Tertiary);
    let result = prepare(plan, Ok(document()), state);
    assert_eq!(
        result.err(),
        Some(Failure::Environment(AlreadyWritten { current: NetworkVariant::Tertiary }))
    );
}

#[test]
fn load_failure_comes_before_the_environment() {
    let plan = SpecPlan { variant: NetworkVariant::Primary, source: SpecSource::File };
    let state = AddressFormatState::Written(NetworkVariant::Tertiary);
    let result = prepare(plan, Err("unreadable".to_string()), state);
    assert_eq!(
        result.err(),
        Some(Failure::SpecLoad(SpecLoadError { message: "unreadable".to_string() }))
    );
}

#[test]
fn prepared_keeps_the_document() {
    let plan = SpecPlan { variant: NetworkVariant::Tertiary, source: SpecSource::File };
    let prepared = prepare(plan, Ok(document()), AddressFormatState::new()).unwrap();
    assert_eq!(prepared.chain_spec().document(), &document());
    assert_eq!(prepared.chain_spec().variant(), NetworkVariant::Tertiary);
}

#[test]
fn full_node_takes_the_options_as_given() {
    let plan = SpecPlan { variant: NetworkVariant::Primary, source: SpecSource::BuiltIn(Generator::Development) };
    let prepared = prepare(plan, Ok(document()), AddressFormatState::new()).unwrap();
    assert_eq!(
        start_node(&prepared, NodeRole::Full, true, &vec![5, 10]),
        Ok(EnginePlan::Full {
            binding: binding_for(NetworkVariant::Primary),
            authority_discovery_enabled: true,
            finality_voter_pause: Some((5, 10)),
        })
    );
}

#[test]
fn light_node_drops_the_options() {
    let plan = SpecPlan { variant: NetworkVariant::Tertiary, source: SpecSource::BuiltIn(Generator::Development) };
    let prepared = prepare(plan, Ok(document()), AddressFormatState::new()).unwrap();
    assert_eq!(
        start_node(&prepared, NodeRole::Light, true, &vec![5, 10]),
        Ok(EnginePlan::Light { binding: binding_for(NetworkVariant::Tertiary) })
    );
}

#[test]
fn invalid_pause_stops_either_role() {
    let plan = SpecPlan { variant: NetworkVariant::Primary, source: SpecSource::BuiltIn(Generator::Development) };
    let prepared = prepare(plan, Ok(document()), AddressFormatState::new()).unwrap();
    assert_eq!(
        start_node(&prepared, NodeRole::Full, false, &vec![5]),
        Err(RunOptionsError { supplied: 1 })
    );
    assert_eq!(
        start_node(&prepared, NodeRole::Light, false, &vec![5, 6, 7]),
        Err(RunOptionsError { supplied: 3 })
    );
}

#[test]
fn plan_engine_by_role() {
    let options =
        RunOptions { authority_discovery_enabled: true, finality_voter_pause: Some((1, 2)) };
    let binding = binding_for(NetworkVariant::Secondary);
    assert_eq!(plan_engine(NodeRole::Light, binding, options), EnginePlan::Light { binding });
    assert_eq!(
        plan_engine(NodeRole::Full, binding, options),
        EnginePlan::Full {
            binding,
            authority_discovery_enabled: true,
            finality_voter_pause: Some((1, 2)),
        }
    );
}

#[test]
fn route_pairs_operation_and_binding() {
    let plan = SpecPlan { variant: NetworkVariant::Tertiary, source: SpecSource::BuiltIn(Generator::Development) };
    let prepared = prepare(plan, Ok(document()), AddressFormatState::new()).unwrap();
    assert_eq!(
        route(&prepared, Operation::Revert),
        MaintenancePlan {
            operation: Operation::Revert,
            binding: binding_for(NetworkVariant::Tertiary)
        }
    );
}

#[test]
fn failed_start_never_runs() {
    assert_eq!(
        step(Phase::Starting, Event::EngineFailed("address in use".to_string())),
        Step::Fail(ServiceStartError { message: "address in use".to_string() })
    );
}

#[test]
fn events_out_of_place_are_rejected() {
    let light = EnginePlan::Light { binding: binding_for(NetworkVariant::Primary) };
    assert_eq!(step(Phase::Configuring, Event::EngineStarted), Step::Reject);
    assert_eq!(step(Phase::Configuring, Event::Drained), Step::Reject);
    assert_eq!(step(Phase::Starting, Event::Configured(light)), Step::Reject);
    assert_eq!(step(Phase::Starting, Event::CancelRequested), Step::Reject);
    assert_eq!(step(Phase::Running, Event::EngineStarted), Step::Reject);
    assert_eq!(step(Phase::Running, Event::EngineFailed("late".to_string())), Step::Reject);
    assert_eq!(step(Phase::Running, Event::Drained), Step::Reject);
    assert_eq!(step(Phase::ShuttingDown, Event::CancelRequested), Step::Reject);
    assert_eq!(step(Phase::Stopped, Event::Configured(light)), Step::Reject);
    assert_eq!(step(Phase::Stopped, Event::Drained), Step::Reject);
    assert_eq!(step(Phase::Running, Event::Configured(light)), Step::Reject);
}

#[test]
fn build_action_carries_the_plan_of_the_event() {
    let light = EnginePlan::Light { binding: binding_for(NetworkVariant::Tertiary) };
    assert_eq!(
        step(Phase::Configuring, Event::Configured(light)),
        Step::Advance(Phase::Starting, Action::BuildEngine(light))
    );
    let full = EnginePlan::Full {
        binding: binding_for(NetworkVariant::Primary),
        authority_discovery_enabled: true,
        finality_voter_pause: Some((5, 10)),
    };
    assert_eq!(
        step(Phase::Configuring, Event::Configured(full)),
        Step::Advance(Phase::Starting, Action::BuildEngine(full))
    );
}

#[test]
fn exit_code_is_zero_only_on_success() {
    assert_eq!(exit_code(&Ok(())), 0);
    let failures = [
        Failure::SpecLoad(SpecLoadError { message: "x".to_string() }),
        Failure::Environment(AlreadyWritten { current: NetworkVariant::Primary }),
        Failure::RunOptions(RunOptionsError { supplied: 1 }),
        Failure::ServiceStart(ServiceStartError { message: "y".to_string() }),
    ];
    for failure in failures {
        assert_eq!(exit_code(&Err(failure)), 1);
    }
}

#[test]
fn failure_messages() {
    assert_eq!(
        Failure::SpecLoad(SpecLoadError { message: "no such file".to_string() }).message(),
        "chain specification could not be loaded: no such file"
    );
    assert_eq!(
        Failure::Environment(AlreadyWritten { current: NetworkVariant::Primary }).message(),
        "the address format is already written"
    );
    assert_eq!(
        Failure::RunOptions(RunOptionsError { supplied: 1 }).message(),
        "the pause option takes exactly two values"
    );
    assert_eq!(
        Failure::ServiceStart(ServiceStartError { message: "address in use".to_string() }).message(),
        "service could not be started: address in use"
    );
}

#[test]
fn identity_of_the_program() {
    assert_eq!(Cli::impl_name(), "ShiftNrg");
    assert_eq!(Cli::executable_name(), "shiftNrg");
    assert_eq!(Cli::copyright_start_year(), 2016);
    assert_eq!(
        Cli::support_url(),
        "https://github.com/shiftnrg/shift-substrate-core/issues/new"
    );
}

#[test]
fn native_runtime_follows_the_specification() {
    let cases = [
        (NetworkVariant::Primary, RuntimeApi::Primary),
        (NetworkVariant::Secondary, RuntimeApi::Secondary),
        (NetworkVariant::Tertiary, RuntimeApi::Tertiary),
    ];
    for (variant, runtime) in cases {
        let plan = SpecPlan { variant, source: SpecSource::BuiltIn(Generator::Development) };
        let spec = complete_load(plan, Ok(document())).unwrap();
        assert_eq!(Cli::native_runtime_version(&spec), runtime);
    }
}

#[test]
fn chain_of_a_subcommand() {
    assert_eq!(Subcommand::BuildSpec(shared("dev")).chain(), Some("dev"));
    assert_eq!(Subcommand::Revert(shared("")).chain(), Some(""));
    assert_eq!(Subcommand::ExportState(shared("a/b.json")).chain(), Some("a/b.json"));
    let worker = ValidationWorkerCommand { mem_id: "dev".to_string() };
    assert_eq!(Subcommand::ValidationWorker(worker).chain(), None);
}

#[test]
fn both_names_of_a_built_in_specification_plan_alike() {
    let cli = Cli { subcommand: None, run: run_cmd("") };
    let development =
        SpecPlan { variant: NetworkVariant::Tertiary, source: SpecSource::BuiltIn(Generator::Development) };
    assert_eq!(cli.load_spec("dev", "node"), development);
    assert_eq!(cli.load_spec("shiftNrg-dev", "node"), development);
    assert_eq!(cli.load_spec("shiftNrg-dev", "secondary-node"), development);
    let local = SpecPlan {
        variant: NetworkVariant::Secondary,
        source: SpecSource::BuiltIn(Generator::LocalTestnet),
    };
    assert_eq!(cli.load_spec("local-testnet", "node"), local);
    assert_eq!(cli.load_spec("shiftNrg-testnet", "node"), local);
    let staging =
        SpecPlan { variant: NetworkVariant::Primary, source: SpecSource::BuiltIn(Generator::Staging) };
    assert_eq!(cli.load_spec("shiftNrg", "tertiary-node"), staging);
}

#[test]
fn both_names_plan_alike_under_a_flag() {
    let mut cmd = run_cmd("");
    cmd.force_secondary = true;
    let cli = Cli { subcommand: None, run: cmd };
    let forced = SpecPlan {
        variant: NetworkVariant::Secondary,
        source: SpecSource::BuiltIn(Generator::Development),
    };
    assert_eq!(cli.load_spec("dev", "node"), forced);
    assert_eq!(cli.load_spec("shiftNrg-dev", "node"), forced);
    assert_eq!(
        cli.load_spec("shiftNrg", "node"),
        SpecPlan { variant: NetworkVariant::Secondary, source: SpecSource::BuiltIn(Generator::Staging) }
    );
}

#[test]
fn one_variant_can_name_two_generators() {
    let cli = Cli { subcommand: None, run: run_cmd("") };
    let development = cli.load_spec("secondary-dev", "node");
    let local = cli.load_spec("local-testnet", "node");
    assert_eq!(development.variant, local.variant);
    assert_ne!(development.source, local.source);
}

#[test]
fn empty_identifier_takes_the_default_generator_of_the_variant() {
    let cli = Cli { subcommand: None, run: run_cmd("") };
    assert_eq!(cli.load_spec("", "node").source, SpecSource::BuiltIn(Generator::Staging));
    assert_eq!(
        cli.load_spec("", "secondary-node").source,
        SpecSource::BuiltIn(Generator::LocalTestnet)
    );
    assert_eq!(
        cli.load_spec("", "tertiary-node").source,
        SpecSource::BuiltIn(Generator::Development)
    );
}

#[test]
fn directory_path_resolves_by_its_last_component() {
    let cli = Cli { subcommand: None, run: run_cmd("") };
    assert_eq!(
        cli.load_spec("secondary/", "node"),
        SpecPlan { variant: NetworkVariant::Secondary, source: SpecSource::File }
    );
}
