//! The store of the progress document: its settings, and what a read or a
//! write comes to before anything is sent.

use crate::error::{ErrorKind, RunError, RunErrorView};
use crate::reconcile::state_view;
use crate::settings::{lookup, switch, text_or, ConfigError, Environment};
use crate::types::{text_of, State, StateView};
use vstd::prelude::*;
use vstd::string::StringExecFns;

verus! {

pub const ENABLE_VARIABLE: &'static str = "STATE_ENABLE";

pub const FILE_PATH_VARIABLE: &'static str = "STATE_FILE_PATH";

pub const FILE_PATH_DEFAULT: &'static str = "/configs/state.yaml";

pub const CONFIG_MAP_VARIABLE: &'static str = "STATE_FILE_CONFIG_MAP_NAME";

pub const CONFIG_MAP_DEFAULT: &'static str = "jarvis-tibber-price-exporter";

/// The file in which a pod finds the namespace it runs in.
pub const NAMESPACE_FILE: &'static str = "/var/run/secrets/kubernetes.io/serviceaccount/namespace";

pub struct StateClientConfig {
    state_file_path: String,
    state_file_configmap_name: String,
    current_namespace: String,
    enable: bool,
}

/// The value of a [`StateClientConfig`].
pub ghost struct StateClientConfigView {
    /// Where the document is read from.
    pub state_file_path: Seq<char>,
    /// The config map that the document is written to.
    pub state_file_configmap_name: Seq<char>,
    pub current_namespace: Seq<char>,
    /// Off: no document is ever found, and every write succeeds without a request.
    pub enable: bool,
}

impl View for StateClientConfig {
    type V = StateClientConfigView;

    closed spec fn view(&self) -> StateClientConfigView {
        StateClientConfigView {
            state_file_path: self.state_file_path@,
            state_file_configmap_name: self.state_file_configmap_name@,
            current_namespace: self.current_namespace@,
            enable: self.enable,
        }
    }
}

/// The store is switched on in this environment. It is off unless turned on.
pub open spec fn store_enabled(env: Seq<(Seq<char>, Seq<char>)>) -> bool {
    switch(lookup(env, ENABLE_VARIABLE@), false)
}

/// The settings that an environment gives, in a pod of the namespace
/// `namespace`. A store that is off keeps no namespace.
pub open spec fn store_settings(env: Seq<(Seq<char>, Seq<char>)>, namespace: Seq<char>) -> StateClientConfigView {
    StateClientConfigView {
        state_file_path: text_or(lookup(env, FILE_PATH_VARIABLE@), FILE_PATH_DEFAULT@),
        state_file_configmap_name: text_or(
            lookup(env, CONFIG_MAP_VARIABLE@),
            CONFIG_MAP_DEFAULT@,
        ),
        current_namespace: if store_enabled(env) {
            namespace
        } else {
            ""@
        },
        enable: store_enabled(env),
    }
}

impl StateClientConfig {
    pub fn new(
        state_file_path: &str,
        state_file_configmap_name: &str,
        current_namespace: &str,
        enable: bool,
    ) -> (config: Result<StateClientConfig, ConfigError>)
        ensures
            config is Ok,
            config->Ok_0@ == (StateClientConfigView {
                state_file_path: state_file_path@,
                state_file_configmap_name: state_file_configmap_name@,
                current_namespace: current_namespace@,
                enable,
            }),
    {
        Ok(
            StateClientConfig {
                state_file_path: String::from_str(state_file_path),
                state_file_configmap_name: String::from_str(state_file_configmap_name),
                current_namespace: String::from_str(current_namespace),
                enable,
            },
        )
    }

    /// Whether the environment switches the store on: only then is there a
    /// namespace to read.
    pub fn enabled_in(env: &Environment) -> (on: bool)
        ensures
            on == store_enabled(env@),
    {
        env.flag(ENABLE_VARIABLE, false)
    }

    /// Reads the settings from the environment; `namespace` is what
    /// [`NAMESPACE_FILE`] holds, and is not looked at where the store is off.
    pub fn from_env(env: &Environment, namespace: &str) -> (config: Result<
        StateClientConfig,
        ConfigError,
    >)
        ensures
            config is Ok,
            config->Ok_0@ == store_settings(env@, namespace@),
    {
        let enable = env.flag(ENABLE_VARIABLE, false);
        let state_file_path = env.text(FILE_PATH_VARIABLE, FILE_PATH_DEFAULT);
        let state_file_configmap_name = env.text(CONFIG_MAP_VARIABLE, CONFIG_MAP_DEFAULT);
        let current_namespace = if enable {
            String::from_str(namespace)
        } else {
            String::from_str("")
        };
        Ok(
            StateClientConfig {
                state_file_path,
                state_file_configmap_name,
                current_namespace,
                enable,
            },
        )
    }
}

/// What a write of the document comes to.
#[derive(Debug, PartialEq, Eq)]
pub enum StoreStep {
    /// The store is off: nothing to do, the write counts as done.
    Skip,
    /// Put `document` under `key` into the data of the config map and replace the map.
    Replace { key: String, document: String },
    /// The write cannot be made.
    Fail(RunError),
}

/// The value of a [`StoreStep`].
pub ghost enum StoreStepView {
    Skip,
    Replace { key: Seq<char>, document: Seq<char> },
    Fail(RunErrorView),
}

impl View for StoreStep {
    type V = StoreStepView;

    open spec fn view(&self) -> StoreStepView {
        match *self {
            StoreStep::Skip => StoreStepView::Skip,
            StoreStep::Replace { key, document } => StoreStepView::Replace {
                key: key@,
                document: document@,
            },
            StoreStep::Fail(e) => StoreStepView::Fail(e@),
        }
    }
}

/// The failure of a write whose path names no file.
pub open spec fn no_file_name() -> RunErrorView {
    RunErrorView { kind: ErrorKind::Storage, message: "No filename found in path"@ }
}

/// What a write comes to, given the file name that the path of the document ends in.
pub open spec fn store_plan(enable: bool, file_name: Option<Seq<char>>, document: Seq<char>) -> StoreStepView {
    if !enable {
        StoreStepView::Skip
    } else {
        match file_name {
            Some(key) => StoreStepView::Replace { key, document },
            None => StoreStepView::Fail(no_file_name()),
        }
    }
}

/// The last component of a path, by `std::path::Path::file_name`: `None`
/// where the path ends in `..` or names nothing. Trusted; how a path is
/// split depends on the platform, so nothing is claimed of the name.
#[verifier::external_body]
fn file_name_of(path: &str) -> (name: Option<String>) {
    std::path::Path::new(path).file_name().and_then(|n| n.to_str()).map(String::from)
}

pub struct StateClient {
    config: StateClientConfig,
}

impl View for StateClient {
    type V = StateClientConfigView;

    closed spec fn view(&self) -> StateClientConfigView {
        self.config@
    }
}

impl StateClient {
    pub fn new(config: StateClientConfig) -> (client: StateClient)
        ensures
            client@ == config@,
    {
        StateClient { config }
    }

    /// A client with the settings that the environment holds.
    pub fn from_env(env: &Environment, namespace: &str) -> (client: Result<
        StateClient,
        ConfigError,
    >)
        ensures
            client is Ok,
            client->Ok_0@ == store_settings(env@, namespace@),
    {
        match StateClientConfig::from_env(env, namespace) {
            Ok(config) => Ok(StateClient::new(config)),
            Err(e) => Err(e),
        }
    }

    pub fn is_enabled(&self) -> (on: bool)
        ensures
            on == self@.enable,
    {
        self.config.enable
    }

    pub fn state_file_path(&self) -> (text: &String)
        ensures
            text@ == self@.state_file_path,
    {
        &self.config.state_file_path
    }

    pub fn state_file_configmap_name(&self) -> (text: &String)
        ensures
            text@ == self@.state_file_configmap_name,
    {
        &self.config.state_file_configmap_name
    }

    pub fn current_namespace(&self) -> (text: &String)
        ensures
            text@ == self@.current_namespace,
    {
        &self.config.current_namespace
    }

    /// What a run gets to see of the store: the document that was found
    /// and could be read, and nothing where the store is off.
    pub fn read_state(&self, found: Option<State>) -> (seen: Option<State>)
        ensures
            state_view(seen) == if self@.enable {
                state_view(found)
            } else {
                None::<StateView>
            },
    {
        if self.config.enable {
            found
        } else {
            None
        }
    }

    /// What a write comes to, for each file name: see [`store_plan`].
    pub fn store_step(&self, file_name: Option<String>, document: String) -> (step: StoreStep)
        ensures
            step@ == store_plan(self@.enable, text_of(file_name), document@),
    {
        if !self.config.enable {
            StoreStep::Skip
        } else {
            match file_name {
                Some(key) => StoreStep::Replace { key, document },
                None => StoreStep::Fail(RunError::storage("No filename found in path")),
            }
        }
    }

    /// What the write of `document` comes to: it goes under the file name
    /// of the path of the document.
    pub fn store_state(&self, document: String) -> (step: StoreStep)
        ensures
            !self@.enable ==> step@ == StoreStepView::Skip,
            self@.enable ==> step@ == StoreStepView::Fail(no_file_name()) || (
            step@ matches StoreStepView::Replace { key, document: d } && d == document@),
    {
        let file_name = file_name_of(self.config.state_file_path.as_str());
        self.store_step(file_name, document)
    }
}

} // verus!
