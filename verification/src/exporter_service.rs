//! The exporter: three collaborators, a source tag, and the run that ties them together.

use crate::bigquery_client::{BigqueryClient, BigqueryClientConfigView};
use crate::retry::{RetryPolicy, BASE_DELAY_MILLIS, MAX_ATTEMPTS};
use crate::run::{initial, Action, ActionView, Run};
use crate::settings::{lookup, ConfigError, Environment};
use crate::state_client::{StateClient, StateClientConfigView};
use crate::tibber_client::TibberClient;
use crate::time::{current_time, Timestamp};
use vstd::prelude::*;
use vstd::string::StringExecFns;

verus! {

/// The variable that holds the source tag.
pub const SOURCE_VARIABLE: &'static str = "SOURCE";

pub struct ExporterServiceConfig {
    bigquery_client: BigqueryClient,
    tibber_client: TibberClient,
    state_client: StateClient,
    source: String,
}

/// The value of an [`ExporterServiceConfig`].
pub ghost struct ExporterServiceConfigView {
    pub bigquery_client: BigqueryClientConfigView,
    /// The access token of the price source.
    pub tibber_client: Seq<char>,
    pub state_client: StateClientConfigView,
    /// The tag that every record of this deployment carries.
    pub source: Seq<char>,
}

impl View for ExporterServiceConfig {
    type V = ExporterServiceConfigView;

    closed spec fn view(&self) -> ExporterServiceConfigView {
        ExporterServiceConfigView {
            bigquery_client: self.bigquery_client@,
            tibber_client: self.tibber_client@,
            state_client: self.state_client@,
            source: self.source@,
        }
    }
}

impl ExporterServiceConfig {
    pub fn new(
        bigquery_client: BigqueryClient,
        tibber_client: TibberClient,
        state_client: StateClient,
        source: &str,
    ) -> (config: Result<ExporterServiceConfig, ConfigError>)
        ensures
            config is Ok,
            config->Ok_0@ == (ExporterServiceConfigView {
                bigquery_client: bigquery_client@,
                tibber_client: tibber_client@,
                state_client: state_client@,
                source: source@,
            }),
    {
        Ok(
            ExporterServiceConfig {
                bigquery_client,
                tibber_client,
                state_client,
                source: String::from_str(source),
            },
        )
    }

    /// Takes the source tag from the variable [`SOURCE_VARIABLE`], which must be there.
    pub fn from_env(
        bigquery_client: BigqueryClient,
        tibber_client: TibberClient,
        state_client: StateClient,
        env: &Environment,
    ) -> (config: Result<ExporterServiceConfig, ConfigError>)
        ensures
            match config {
                Ok(c) => lookup(env@, SOURCE_VARIABLE@) == Some(c@.source) && c@ == (
                ExporterServiceConfigView {
                    bigquery_client: bigquery_client@,
                    tibber_client: tibber_client@,
                    state_client: state_client@,
                    source: c@.source,
                }),
                Err(e) => lookup(env@, SOURCE_VARIABLE@) is None && e.variable@
                    == SOURCE_VARIABLE@,
            },
    {
        match env.require(SOURCE_VARIABLE) {
            Ok(source) => Ok(
                ExporterServiceConfig { bigquery_client, tibber_client, state_client, source },
            ),
            Err(e) => Err(e),
        }
    }
}

pub struct ExporterService {
    config: ExporterServiceConfig,
}

impl View for ExporterService {
    type V = ExporterServiceConfigView;

    closed spec fn view(&self) -> ExporterServiceConfigView {
        self.config@
    }
}

/// The policy of every run: three attempts, 100 ms before the second, 200 ms before the third.
pub open spec fn run_policy() -> RetryPolicy {
    RetryPolicy { base_delay_millis: BASE_DELAY_MILLIS, max_attempts: MAX_ATTEMPTS }
}

impl ExporterService {
    pub fn new(config: ExporterServiceConfig) -> (service: ExporterService)
        ensures
            service@ == config@,
    {
        ExporterService { config }
    }

    /// A service with the source tag that the environment holds.
    pub fn from_env(
        bigquery_client: BigqueryClient,
        tibber_client: TibberClient,
        state_client: StateClient,
        env: &Environment,
    ) -> (service: Result<ExporterService, ConfigError>)
        ensures
            match service {
                Ok(s) => lookup(env@, SOURCE_VARIABLE@) == Some(s@.source) && s@ == (
                ExporterServiceConfigView {
                    bigquery_client: bigquery_client@,
                    tibber_client: tibber_client@,
                    state_client: state_client@,
                    source: s@.source,
                }),
                Err(e) => lookup(env@, SOURCE_VARIABLE@) is None && e.variable@
                    == SOURCE_VARIABLE@,
            },
    {
        match ExporterServiceConfig::from_env(bigquery_client, tibber_client, state_client, env) {
            Ok(config) => Ok(ExporterService::new(config)),
            Err(e) => Err(e),
        }
    }

    pub fn bigquery_client(&self) -> (client: &BigqueryClient)
        ensures
            client@ == self@.bigquery_client,
    {
        &self.config.bigquery_client
    }

    pub fn tibber_client(&self) -> (client: &TibberClient)
        ensures
            client@ == self@.tibber_client,
    {
        &self.config.tibber_client
    }

    pub fn state_client(&self) -> (client: &StateClient)
        ensures
            client@ == self@.state_client,
    {
        &self.config.state_client
    }

    pub fn source(&self) -> (source: &String)
        ensures
            source@ == self@.source,
    {
        &self.config.source
    }

    /// Begins a run at the instant `now`: every record of the run is
    /// classified against this instant, and tagged with the source of the
    /// service. The first action is to ensure the schema.
    pub fn run_at(&self, now: Timestamp) -> (started: (Run, Action))
        ensures
            started.0@ == initial(now, self@.source, run_policy()),
            started.0@.wf(),
            started.1@ == ActionView::EnsureSchema,
    {
        Run::start(now, self.config.source.as_str(), RetryPolicy::standard())
    }

    /// Begins a run at the current instant.
    pub fn run(&self) -> (started: (Run, Action))
        ensures
            started.0@ == initial(started.0@.now, self@.source, run_policy()),
            started.0@.wf(),
            started.1@ == ActionView::EnsureSchema,
    {
        self.run_at(current_time())
    }
}

} // verus!
