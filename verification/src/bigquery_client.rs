//! The warehouse: its settings, the table that receives the records, and
//! the steps that make sure the table is there.

use crate::settings::{lookup, switch, text_or, ConfigError, Environment};
use vstd::prelude::*;
use vstd::string::StringExecFns;

verus! {

pub const CREDENTIALS_VARIABLE: &'static str = "GOOGLE_APPLICATION_CREDENTIALS";

pub const CREDENTIALS_DEFAULT: &'static str = "/secrets/keyfile.json";

pub const PROJECT_VARIABLE: &'static str = "BQ_PROJECT_ID";

pub const DATASET_VARIABLE: &'static str = "BQ_DATASET";

pub const TABLE_VARIABLE: &'static str = "BQ_TABLE";

pub const ENABLE_VARIABLE: &'static str = "BQ_ENABLE";

pub const INIT_VARIABLE: &'static str = "BQ_INIT";

/// The column by which the table is partitioned, one partition a day.
pub const PARTITION_COLUMN: &'static str = "from";

/// How long to wait before asking again whether a new table is there.
pub const TABLE_POLL_MILLIS: u64 = 1000;

pub struct BigqueryClientConfig {
    project_id: String,
    dataset: String,
    table: String,
    google_application_credentials: String,
    enable: bool,
    init: bool,
}

/// The value of a [`BigqueryClientConfig`].
pub ghost struct BigqueryClientConfigView {
    pub project_id: Seq<char>,
    pub dataset: Seq<char>,
    pub table: Seq<char>,
    /// The path of the key file of the service account.
    pub google_application_credentials: Seq<char>,
    /// Off: nothing is sent to the warehouse, and every operation succeeds.
    pub enable: bool,
    /// Off: the table is taken as it is.
    pub init: bool,
}

impl View for BigqueryClientConfig {
    type V = BigqueryClientConfigView;

    closed spec fn view(&self) -> BigqueryClientConfigView {
        BigqueryClientConfigView {
            project_id: self.project_id@,
            dataset: self.dataset@,
            table: self.table@,
            google_application_credentials: self.google_application_credentials@,
            enable: self.enable,
            init: self.init,
        }
    }
}

/// The first required variable that the environment lacks.
pub open spec fn missing_variable(env: Seq<(Seq<char>, Seq<char>)>) -> Option<Seq<char>> {
    if lookup(env, PROJECT_VARIABLE@) is None {
        Some(PROJECT_VARIABLE@)
    } else if lookup(env, DATASET_VARIABLE@) is None {
        Some(DATASET_VARIABLE@)
    } else if lookup(env, TABLE_VARIABLE@) is None {
        Some(TABLE_VARIABLE@)
    } else {
        None
    }
}

/// The settings that an environment with all required variables gives:
/// the key file is `/secrets/keyfile.json` unless named, and both switches
/// are on unless turned off.
pub open spec fn settings_of(env: Seq<(Seq<char>, Seq<char>)>) -> BigqueryClientConfigView {
    BigqueryClientConfigView {
        project_id: lookup(env, PROJECT_VARIABLE@)->0,
        dataset: lookup(env, DATASET_VARIABLE@)->0,
        table: lookup(env, TABLE_VARIABLE@)->0,
        google_application_credentials: text_or(
            lookup(env, CREDENTIALS_VARIABLE@),
            CREDENTIALS_DEFAULT@,
        ),
        enable: switch(lookup(env, ENABLE_VARIABLE@), true),
        init: switch(lookup(env, INIT_VARIABLE@), true),
    }
}

impl BigqueryClientConfig {
    pub fn new(
        project_id: &str,
        dataset: &str,
        table: &str,
        google_application_credentials: &str,
        enable: bool,
        init: bool,
    ) -> (config: Result<BigqueryClientConfig, ConfigError>)
        ensures
            config is Ok,
            config->Ok_0@ == (BigqueryClientConfigView {
                project_id: project_id@,
                dataset: dataset@,
                table: table@,
                google_application_credentials: google_application_credentials@,
                enable,
                init,
            }),
    {
        Ok(
            BigqueryClientConfig {
                project_id: String::from_str(project_id),
                dataset: String::from_str(dataset),
                table: String::from_str(table),
                google_application_credentials: String::from_str(google_application_credentials),
                enable,
                init,
            },
        )
    }

    /// Reads the settings from the environment. Project, dataset and table are required.
    pub fn from_env(env: &Environment) -> (config: Result<BigqueryClientConfig, ConfigError>)
        ensures
            match config {
                Ok(c) => missing_variable(env@) is None && c@ == settings_of(env@),
                Err(e) => missing_variable(env@) == Some(e.variable@),
            },
    {
        let google_application_credentials = env.text(CREDENTIALS_VARIABLE, CREDENTIALS_DEFAULT);
        let project_id = match env.require(PROJECT_VARIABLE) {
            Ok(text) => text,
            Err(e) => {
                return Err(e);
            },
        };
        let dataset = match env.require(DATASET_VARIABLE) {
            Ok(text) => text,
            Err(e) => {
                return Err(e);
            },
        };
        let table = match env.require(TABLE_VARIABLE) {
            Ok(text) => text,
            Err(e) => {
                return Err(e);
            },
        };
        let enable = env.flag(ENABLE_VARIABLE, true);
        let init = env.flag(INIT_VARIABLE, true);
        Ok(
            BigqueryClientConfig {
                project_id,
                dataset,
                table,
                google_application_credentials,
                enable,
                init,
            },
        )
    }
}

/// The type of a column.
#[derive(Clone, Copy, Debug, PartialEq, Eq, Structural)]
pub enum ColumnType {
    Text,
    Timestamp,
    Float,
}

/// One column of the table.
#[derive(Clone, Copy, Debug, PartialEq, Eq)]
pub struct Column {
    pub name: &'static str,
    pub column_type: ColumnType,
}

/// The columns of the table, as names and types, in order.
pub open spec fn table_columns() -> Seq<(Seq<char>, ColumnType)> {
    seq![
        ("id"@, ColumnType::Text),
        ("source"@, ColumnType::Text),
        ("from"@, ColumnType::Timestamp),
        ("till"@, ColumnType::Timestamp),
        ("marketPrice"@, ColumnType::Float),
        ("marketPriceTax"@, ColumnType::Float),
        ("sourcingMarkupPrice"@, ColumnType::Float),
        ("energyTaxPrice"@, ColumnType::Float),
    ]
}

/// What a list of columns holds.
pub open spec fn columns_of(columns: Seq<Column>) -> Seq<(Seq<char>, ColumnType)> {
    columns.map_values(|c: Column| (c.name@, c.column_type))
}

/// Where the setup of the table stands.
#[derive(Clone, Copy, Debug, PartialEq, Eq, Structural)]
pub enum SetupPhase {
    Start,
    /// Asked whether the table is there.
    Checking,
    /// Asked for the table to be created.
    Creating,
    /// Asked whether the new table can be seen yet.
    Confirming,
    /// Waiting before asking again.
    Pausing,
    /// Asked for the schema of the table to be brought up to date.
    Updating,
    Done,
    /// An event came that answers no pending action.
    Confused,
}

/// What came of the last action of the setup.
#[derive(Clone, Copy, Debug, PartialEq, Eq, Structural)]
pub enum SetupEvent {
    Begin,
    TableChecked { exists: bool },
    TableCreated,
    SchemaUpdated,
    Waited,
}

/// What the caller is to do next for the setup.
#[derive(Clone, Copy, Debug, PartialEq, Eq, Structural)]
pub enum SetupAction {
    CheckTable,
    CreateTable,
    UpdateSchema,
    Sleep { millis: u64 },
    /// The table is ready, or was not to be touched.
    Finish,
    /// The caller broke the order of events.
    Abort,
}

/// The setup of the table, step by step: nothing where the warehouse or
/// the setup is switched off; else an existing table gets its schema
/// updated, and a missing one is created and then asked for once a second
/// until it is there.
pub open spec fn setup_step(enable: bool, init: bool, phase: SetupPhase, event: SetupEvent) -> (
    SetupPhase,
    SetupAction,
) {
    match (phase, event) {
        (SetupPhase::Start, SetupEvent::Begin) => if enable && init {
            (SetupPhase::Checking, SetupAction::CheckTable)
        } else {
            (SetupPhase::Done, SetupAction::Finish)
        },
        (SetupPhase::Checking, SetupEvent::TableChecked { exists }) => if exists {
            (SetupPhase::Updating, SetupAction::UpdateSchema)
        } else {
            (SetupPhase::Creating, SetupAction::CreateTable)
        },
        (SetupPhase::Creating, SetupEvent::TableCreated) => (
            SetupPhase::Confirming,
            SetupAction::CheckTable,
        ),
        (SetupPhase::Confirming, SetupEvent::TableChecked { exists }) => if exists {
            (SetupPhase::Done, SetupAction::Finish)
        } else {
            (SetupPhase::Pausing, SetupAction::Sleep { millis: TABLE_POLL_MILLIS })
        },
        (SetupPhase::Pausing, SetupEvent::Waited) => (
            SetupPhase::Confirming,
            SetupAction::CheckTable,
        ),
        (SetupPhase::Updating, SetupEvent::SchemaUpdated) => (
            SetupPhase::Done,
            SetupAction::Finish,
        ),
        _ => (SetupPhase::Confused, SetupAction::Abort),
    }
}

pub struct BigqueryClient {
    config: BigqueryClientConfig,
}

impl View for BigqueryClient {
    type V = BigqueryClientConfigView;

    closed spec fn view(&self) -> BigqueryClientConfigView {
        self.config@
    }
}

impl BigqueryClient {
    pub fn new(config: BigqueryClientConfig) -> (client: BigqueryClient)
        ensures
            client@ == config@,
    {
        BigqueryClient { config }
    }

    /// A client with the settings that the environment holds.
    pub fn from_env(env: &Environment) -> (client: Result<BigqueryClient, ConfigError>)
        ensures
            match client {
                Ok(c) => missing_variable(env@) is None && c@ == settings_of(env@),
                Err(e) => missing_variable(env@) == Some(e.variable@),
            },
    {
        match BigqueryClientConfig::from_env(env) {
            Ok(config) => Ok(BigqueryClient::new(config)),
            Err(e) => Err(e),
        }
    }

    pub fn project_id(&self) -> (text: &String)
        ensures
            text@ == self@.project_id,
    {
        &self.config.project_id
    }

    pub fn dataset(&self) -> (text: &String)
        ensures
            text@ == self@.dataset,
    {
        &self.config.dataset
    }

    pub fn table(&self) -> (text: &String)
        ensures
            text@ == self@.table,
    {
        &self.config.table
    }

    pub fn google_application_credentials(&self) -> (text: &String)
        ensures
            text@ == self@.google_application_credentials,
    {
        &self.config.google_application_credentials
    }

    /// Records are sent to the warehouse. Off: every insert succeeds without a request.
    pub fn is_enabled(&self) -> (on: bool)
        ensures
            on == self@.enable,
    {
        self.config.enable
    }

    /// The columns of the table.
    pub fn columns() -> (columns: Vec<Column>)
        ensures
            columns_of(columns@) == table_columns(),
    {
        let mut columns: Vec<Column> = Vec::new();
        columns.push(Column { name: "id", column_type: ColumnType::Text });
        columns.push(Column { name: "source", column_type: ColumnType::Text });
        columns.push(Column { name: "from", column_type: ColumnType::Timestamp });
        columns.push(Column { name: "till", column_type: ColumnType::Timestamp });
        columns.push(Column { name: "marketPrice", column_type: ColumnType::Float });
        columns.push(Column { name: "marketPriceTax", column_type: ColumnType::Float });
        columns.push(Column { name: "sourcingMarkupPrice", column_type: ColumnType::Float });
        columns.push(Column { name: "energyTaxPrice", column_type: ColumnType::Float });
        assert(columns_of(columns@) =~= table_columns());
        columns
    }

    /// One step of the setup of the table: see [`setup_step`].
    pub fn init_table(&self, phase: SetupPhase, event: SetupEvent) -> (next: (
        SetupPhase,
        SetupAction,
    ))
        ensures
            next == setup_step(self@.enable, self@.init, phase, event),
    {
        match phase {
            SetupPhase::Start => match event {
                SetupEvent::Begin => {
                    if self.config.enable && self.config.init {
                        (SetupPhase::Checking, SetupAction::CheckTable)
                    } else {
                        (SetupPhase::Done, SetupAction::Finish)
                    }
                },
                _ => (SetupPhase::Confused, SetupAction::Abort),
            },
            SetupPhase::Checking => match event {
                SetupEvent::TableChecked { exists } => {
                    if exists {
                        (SetupPhase::Updating, SetupAction::UpdateSchema)
                    } else {
                        (SetupPhase::Creating, SetupAction::CreateTable)
                    }
                },
                _ => (SetupPhase::Confused, SetupAction::Abort),
            },
            SetupPhase::Creating => match event {
                SetupEvent::TableCreated => (SetupPhase::Confirming, SetupAction::CheckTable),
                _ => (SetupPhase::Confused, SetupAction::Abort),
            },
            SetupPhase::Confirming => match event {
                SetupEvent::TableChecked { exists } => {
                    if exists {
                        (SetupPhase::Done, SetupAction::Finish)
                    } else {
                        (SetupPhase::Pausing, SetupAction::Sleep { millis: TABLE_POLL_MILLIS })
                    }
                },
                _ => (SetupPhase::Confused, SetupAction::Abort),
            },
            SetupPhase::Pausing => match event {
                SetupEvent::Waited => (SetupPhase::Confirming, SetupAction::CheckTable),
                _ => (SetupPhase::Confused, SetupAction::Abort),
            },
            SetupPhase::Updating => match event {
                SetupEvent::SchemaUpdated => (SetupPhase::Done, SetupAction::Finish),
                _ => (SetupPhase::Confused, SetupAction::Abort),
            },
            _ => (SetupPhase::Confused, SetupAction::Abort),
        }
    }
}

/// A warehouse that is switched off, or a setup that is, is never touched;
/// and the setup changes a table only after it has asked whether it is there.
pub proof fn lemma_setup_asks_first(enable: bool, init: bool, phase: SetupPhase, event: SetupEvent)
    ensures
        !(enable && init) ==> setup_step(enable, init, SetupPhase::Start, SetupEvent::Begin) == (
            SetupPhase::Done,
            SetupAction::Finish,
        ),
        setup_step(enable, init, phase, event).1 == SetupAction::CreateTable ==> phase
            == SetupPhase::Checking && event == (SetupEvent::TableChecked { exists: false }),
        setup_step(enable, init, phase, event).1 == SetupAction::UpdateSchema ==> phase
            == SetupPhase::Checking && event == (SetupEvent::TableChecked { exists: true }),
{
}

} // verus!
