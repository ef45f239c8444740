//! The pipeline from a parsed command line to a plan: resolve, choose the
//! source, load, bind, configure, and dispatch or route.

use vstd::prelude::*;
use vstd::string::StringExecFns;
use crate::variant::{Generator, NetworkVariant, OverrideFlags};
use crate::resolver::{
    resolved_variant, resolve, lemma_alias_names_agree, lemma_alias_is_plain,
};
use crate::loader::{
    SpecSource, SpecPlan, SpecDocument, ChainSpecification, SpecLoadError, source_of, choose_source,
    complete_load,
};
use crate::binding::{RuntimeApi, RuntimeBinding, binding_of, binding_for};
use crate::environment::{AddressFormatState, AlreadyWritten};
use crate::options::{RunOptions, RunOptionsError, run_options_of};
use crate::dispatcher::{NodeRole, EnginePlan, ServiceStartError, engine_plan_of, plan_engine};
use crate::cli::{Cli, Subcommand};

verus! {

/// The maintenance operations.
#[derive(Clone, Copy, Debug, PartialEq, Eq, Structural)]
pub enum Operation {
    BuildSpec,
    CheckBlock,
    ExportBlocks,
    ExportState,
    ImportBlocks,
    PurgeChain,
    Revert,
}

/// What a command line asks for.
#[derive(Clone, Debug, PartialEq, Eq)]
pub enum Invocation {
    /// The validation worker: no variant is resolved, and the identifier of
    /// the shared memory is handed on as it came.
    Worker { mem_id: String },
    /// A continuous run.
    Node(SpecPlan),
    /// A maintenance operation.
    Maintenance(Operation, SpecPlan),
}

/// The plan for an identifier: the resolved variant, and the source that
/// the identifier selects.
pub open spec fn plan_of(identifier: Seq<char>, flags: OverrideFlags, exec_name: Seq<char>) -> SpecPlan {
    SpecPlan {
        variant: resolved_variant(identifier, flags, exec_name),
        source: source_of(identifier, resolved_variant(identifier, flags, exec_name)),
    }
}

/// The operation of a maintenance command and its chain identifier; `None`
/// for the validation worker.
pub open spec fn maintenance_of(subcommand: Subcommand) -> Option<(Operation, Seq<char>)> {
    match subcommand {
        Subcommand::BuildSpec(shared) => Some((Operation::BuildSpec, shared.chain@)),
        Subcommand::CheckBlock(shared) => Some((Operation::CheckBlock, shared.chain@)),
        Subcommand::ExportBlocks(shared) => Some((Operation::ExportBlocks, shared.chain@)),
        Subcommand::ExportState(shared) => Some((Operation::ExportState, shared.chain@)),
        Subcommand::ImportBlocks(shared) => Some((Operation::ImportBlocks, shared.chain@)),
        Subcommand::PurgeChain(shared) => Some((Operation::PurgeChain, shared.chain@)),
        Subcommand::Revert(shared) => Some((Operation::Revert, shared.chain@)),
        Subcommand::ValidationWorker(_) => None,
    }
}

/// What a command line asks for. A maintenance command is resolved from its
/// own identifier and the override flags of the run options.
pub open spec fn invocation_of(cli: Cli, exec_name: Seq<char>) -> Invocation {
    match cli.subcommand {
        None => Invocation::Node(plan_of(cli.run.chain@, cli.run.spec_flags(), exec_name)),
        Some(Subcommand::ValidationWorker(worker)) => Invocation::Worker { mem_id: worker.mem_id },
        Some(subcommand) => Invocation::Maintenance(
            maintenance_of(subcommand)->Some_0.0,
            plan_of(maintenance_of(subcommand)->Some_0.1, cli.run.spec_flags(), exec_name),
        ),
    }
}

/// The two names of a built-in specification give one plan, whatever the
/// flags and the executable's name are: `shiftNrg-dev` plans as `dev` does,
/// `shiftNrg-testnet` as `local-testnet`. Each of them, and `shiftNrg`, plans
/// a built-in generator, so that no file is read for any of them.
pub proof fn lemma_alias_plans_agree(flags: OverrideFlags, exec_name: Seq<char>)
    ensures
        plan_of("shiftNrg-dev"@, flags, exec_name) == plan_of("dev"@, flags, exec_name),
        plan_of("dev"@, flags, exec_name).source == SpecSource::BuiltIn(Generator::Development),
        plan_of("shiftNrg-testnet"@, flags, exec_name) == plan_of(
            "local-testnet"@,
            flags,
            exec_name,
        ),
        plan_of("local-testnet"@, flags, exec_name).source == SpecSource::BuiltIn(
            Generator::LocalTestnet,
        ),
        plan_of("shiftNrg"@, flags, exec_name).source == SpecSource::BuiltIn(Generator::Staging),
{
    lemma_alias_names_agree(flags, exec_name);
    lemma_alias_is_plain("shiftNrg-dev"@);
    lemma_alias_is_plain("dev"@);
    lemma_alias_is_plain("shiftNrg-testnet"@);
    lemma_alias_is_plain("local-testnet"@);
    lemma_alias_is_plain("shiftNrg"@);
}

/// The validation worker bypasses resolution: whatever the run options and
/// the executable's name are, its identifier is handed on unchanged.
pub proof fn lemma_worker_bypass(cli: Cli, exec_name: Seq<char>)
    requires
        cli.subcommand matches Some(Subcommand::ValidationWorker(_)),
    ensures
        invocation_of(cli, exec_name) == (Invocation::Worker {
            mem_id: cli.subcommand->Some_0->ValidationWorker_0.mem_id,
        }),
{
}

/// A maintenance command is resolved as a run is: its plan is that of its
/// own identifier under the override flags of the run options, and its
/// operation is the one that the command names.
pub proof fn lemma_same_plan(cli: Cli, exec_name: Seq<char>)
    requires
        cli.subcommand matches Some(subcommand) && maintenance_of(subcommand) is Some,
    ensures
        invocation_of(cli, exec_name) matches Invocation::Maintenance(operation, plan) && plan
            == plan_of(
            maintenance_of(cli.subcommand->Some_0)->Some_0.1,
            cli.run.spec_flags(),
            exec_name,
        ) && operation == maintenance_of(cli.subcommand->Some_0)->Some_0.0,
{
}

impl Subcommand {
    /// The chain identifier of a maintenance command; `None` for the
    /// validation worker, which has none.
    pub fn chain(&self) -> (chain: Option<&str>)
        ensures
            match chain {
                Some(text) => maintenance_of(*self) is Some && maintenance_of(*self)->Some_0.1
                    == text@,
                None => maintenance_of(*self) is None,
            },
    {
        match self {
            Subcommand::BuildSpec(shared) => Some(shared.chain.as_str()),
            Subcommand::CheckBlock(shared) => Some(shared.chain.as_str()),
            Subcommand::ExportBlocks(shared) => Some(shared.chain.as_str()),
            Subcommand::ExportState(shared) => Some(shared.chain.as_str()),
            Subcommand::ImportBlocks(shared) => Some(shared.chain.as_str()),
            Subcommand::PurgeChain(shared) => Some(shared.chain.as_str()),
            Subcommand::Revert(shared) => Some(shared.chain.as_str()),
            Subcommand::ValidationWorker(_) => None,
        }
    }
}

impl Cli {
    /// The name of the implementation.
    pub fn impl_name() -> (name: String)
        ensures
            name@ == "ShiftNrg"@,
    {
        String::from_str("ShiftNrg")
    }

    /// Where problems are reported.
    pub fn support_url() -> (url: String)
        ensures
            url@ == "https://github.com/shiftnrg/shift-substrate-core/issues/new"@,
    {
        String::from_str("https://github.com/shiftnrg/shift-substrate-core/issues/new")
    }

    /// The first year of the copyright.
    pub fn copyright_start_year() -> (year: i32)
        ensures
            year == 2016,
    {
        2016
    }

    /// The name of the executable.
    pub fn executable_name() -> (name: String)
        ensures
            name@ == "shiftNrg"@,
    {
        String::from_str("shiftNrg")
    }

    /// Resolves the variant for `id` under this command line's override
    /// flags, and chooses the source of the chain specification.
    pub fn load_spec(&self, id: &str, exec_name: &str) -> (plan: SpecPlan)
        ensures
            plan == plan_of(id@, self.run.spec_flags(), exec_name@),
    {
        let variant = resolve(id, self.run.flags(), exec_name);
        SpecPlan { variant, source: choose_source(id, variant) }
    }

    /// The runtime that is native to a chain specification: the one bound
    /// to its variant.
    pub fn native_runtime_version(spec: &ChainSpecification) -> (runtime: RuntimeApi)
        ensures
            runtime == binding_of(spec.spec_variant()).runtime_api,
    {
        binding_for(spec.variant()).runtime_api
    }
}

/// Decides what the command line asks for. Nothing is read or started: the
/// caller loads the specification that the plan names and goes on with
/// `prepare`.
pub fn run(cli: &Cli, exec_name: &str) -> (invocation: Invocation)
    ensures
        invocation == invocation_of(*cli, exec_name@),
{
    match &cli.subcommand {
        None => Invocation::Node(cli.load_spec(cli.run.chain.as_str(), exec_name)),
        Some(Subcommand::ValidationWorker(worker)) => Invocation::Worker {
            mem_id: worker.mem_id.clone(),
        },
        Some(Subcommand::BuildSpec(shared)) => Invocation::Maintenance(
            Operation::BuildSpec,
            cli.load_spec(shared.chain.as_str(), exec_name),
        ),
        Some(Subcommand::CheckBlock(shared)) => Invocation::Maintenance(
            Operation::CheckBlock,
            cli.load_spec(shared.chain.as_str(), exec_name),
        ),
        Some(Subcommand::ExportBlocks(shared)) => Invocation::Maintenance(
            Operation::ExportBlocks,
            cli.load_spec(shared.chain.as_str(), exec_name),
        ),
        Some(Subcommand::ExportState(shared)) => Invocation::Maintenance(
            Operation::ExportState,
            cli.load_spec(shared.chain.as_str(), exec_name),
        ),
        Some(Subcommand::ImportBlocks(shared)) => Invocation::Maintenance(
            Operation::ImportBlocks,
            cli.load_spec(shared.chain.as_str(), exec_name),
        ),
        Some(Subcommand::PurgeChain(shared)) => Invocation::Maintenance(
            Operation::PurgeChain,
            cli.load_spec(shared.chain.as_str(), exec_name),
        ),
        Some(Subcommand::Revert(shared)) => Invocation::Maintenance(
            Operation::Revert,
            cli.load_spec(shared.chain.as_str(), exec_name),
        ),
    }
}

/// A loaded specification with its binding and the address format written
/// for it. A value of this type exists only where the binding is that of the
/// specification's variant and the address format is written for that same
/// variant.
#[derive(Debug)]
pub struct Prepared {
    spec: ChainSpecification,
    binding: RuntimeBinding,
    environment: AddressFormatState,
}

impl Prepared {
    #[verifier::type_invariant]
    spec fn consistent(&self) -> bool {
        &&& self.binding == binding_of(self.spec.spec_variant())
        &&& self.environment == AddressFormatState::Written(self.spec.spec_variant())
    }

    /// The loaded specification.
    pub closed spec fn spec_chain(&self) -> ChainSpecification {
        self.spec
    }

    /// The variant of the loaded specification.
    pub open spec fn spec_variant(&self) -> NetworkVariant {
        self.spec_chain().spec_variant()
    }

    /// The binding held.
    pub closed spec fn spec_binding(&self) -> RuntimeBinding {
        self.binding
    }

    /// The address format held.
    pub closed spec fn spec_environment(&self) -> AddressFormatState {
        self.environment
    }

    /// The loaded specification.
    pub fn chain_spec(&self) -> (spec: &ChainSpecification)
        ensures
            *spec == self.spec_chain(),
    {
        &self.spec
    }

    /// The binding: always that of the specification's variant.
    pub fn binding(&self) -> (binding: RuntimeBinding)
        ensures
            binding == self.spec_binding(),
            binding == binding_of(self.spec_variant()),
    {
        proof {
            use_type_invariant(self);
        }
        self.binding
    }

    /// The address format: always written, for the specification's variant.
    pub fn environment(&self) -> (environment: AddressFormatState)
        ensures
            environment == self.spec_environment(),
            environment == AddressFormatState::Written(self.spec_variant()),
    {
        proof {
            use_type_invariant(self);
        }
        self.environment
    }
}

/// Finishes the load, binds the runtime and writes the address format, in
/// this order. Fails where the load failed, with its message, and then
/// nothing is bound or written; fails where the address format was written
/// before; succeeds on every other input.
pub fn prepare(
    plan: SpecPlan,
    outcome: Result<SpecDocument, String>,
    environment: AddressFormatState,
) -> (result: Result<Prepared, Failure>)
    ensures
        match (outcome, environment) {
            (Err(message), _) => result == Err::<Prepared, Failure>(
                Failure::SpecLoad(SpecLoadError { message }),
            ),
            (Ok(_), AddressFormatState::Written(current)) => result == Err::<Prepared, Failure>(
                Failure::Environment(AlreadyWritten { current }),
            ),
            (Ok(document), AddressFormatState::Uninitialized) => {
                &&& result is Ok
                &&& result->Ok_0.spec_variant() == plan.variant
                &&& result->Ok_0.spec_chain().spec_document() == document
                &&& result->Ok_0.spec_binding() == binding_of(plan.variant)
                &&& result->Ok_0.spec_environment() == AddressFormatState::Written(plan.variant)
            },
        },
{
    match complete_load(plan, outcome) {
        Ok(spec) => {
            let binding = binding_for(spec.variant());
            match environment.configure(spec.variant()) {
                Ok(environment) => Ok(Prepared { spec, binding, environment }),
                Err(e) => Err(Failure::Environment(e)),
            }
        },
        Err(e) => Err(Failure::SpecLoad(e)),
    }
}

/// What `start_node` returns.
pub open spec fn start_of(
    variant: NetworkVariant,
    role: NodeRole,
    authority_discovery_enabled: bool,
    pause: Seq<u32>,
) -> Result<EnginePlan, RunOptionsError> {
    match run_options_of(authority_discovery_enabled, pause) {
        Ok(options) => Ok(engine_plan_of(role, binding_of(variant), options)),
        Err(e) => Err(e),
    }
}

/// Validates the run options and plans the engine for a prepared node. The
/// options are validated for either role; a light client then drops them.
/// By the time this runs the address format is written.
pub fn start_node(
    prepared: &Prepared,
    role: NodeRole,
    authority_discovery_enabled: bool,
    pause: &Vec<u32>,
) -> (result: Result<EnginePlan, RunOptionsError>)
    ensures
        result == start_of(prepared.spec_variant(), role, authority_discovery_enabled, pause@),
        prepared.spec_environment() == AddressFormatState::Written(prepared.spec_variant()),
{
    proof {
        use_type_invariant(prepared);
    }
    match RunOptions::new(authority_discovery_enabled, pause) {
        Ok(options) => Ok(plan_engine(role, prepared.binding(), options)),
        Err(e) => Err(e),
    }
}

/// A maintenance operation with the runtime and executor it runs on.
#[derive(Clone, Copy, Debug, PartialEq, Eq, Structural)]
pub struct MaintenancePlan {
    pub operation: Operation,
    pub binding: RuntimeBinding,
}

/// Pairs a maintenance operation with the binding of the prepared
/// specification's variant. By the time this runs the address format is
/// written.
pub fn route(prepared: &Prepared, operation: Operation) -> (plan: MaintenancePlan)
    ensures
        plan == (MaintenancePlan { operation, binding: binding_of(prepared.spec_variant()) }),
        prepared.spec_environment() == AddressFormatState::Written(prepared.spec_variant()),
{
    proof {
        use_type_invariant(prepared);
    }
    MaintenancePlan { operation, binding: prepared.binding() }
}

/// Why an invocation failed.
#[derive(Clone, Debug, PartialEq, Eq)]
pub enum Failure {
    SpecLoad(SpecLoadError),
    Environment(AlreadyWritten),
    RunOptions(RunOptionsError),
    ServiceStart(ServiceStartError),
}

/// The text shown for a failure.
pub open spec fn failure_text(failure: Failure) -> Seq<char> {
    match failure {
        Failure::SpecLoad(e) => "chain specification could not be loaded: "@ + e.message@,
        Failure::Environment(_) => "the address format is already written"@,
        Failure::RunOptions(_) => "the pause option takes exactly two values"@,
        Failure::ServiceStart(e) => "service could not be started: "@ + e.message@,
    }
}

impl Failure {
    /// The text shown for this failure.
    pub fn message(&self) -> (text: String)
        ensures
            text@ == failure_text(*self),
    {
        match self {
            Failure::SpecLoad(e) => String::from_str(
                "chain specification could not be loaded: ",
            ).concat(e.message.as_str()),
            Failure::Environment(_) => String::from_str("the address format is already written"),
            Failure::RunOptions(_) => String::from_str("the pause option takes exactly two values"),
            Failure::ServiceStart(e) => String::from_str("service could not be started: ").concat(
                e.message.as_str(),
            ),
        }
    }
}

/// The exit code of the process: 0 after a clean stop or a finished
/// operation, 1 after any failure.
pub fn exit_code(outcome: &Result<(), Failure>) -> (code: i32)
    ensures
        code == if outcome is Ok { 0i32 } else { 1i32 },
{
    match outcome {
        Ok(_) => 0,
        Err(_) => 1,
    }
}

} // verus!
