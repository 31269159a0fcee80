//! The security and audit layer: a session-scoped manager that runs
//! every named operation under an audit, appending exactly one immutable
//! record per invocation to an append-only ledger.  The ledger rows are
//! rendered as wire documents; persisting them to disk is the embedding
//! program's job.
use vstd::prelude::*;

use crate::json::{json_chars, jv_of, lemma_jv_of_pairs, JsonV, JsonValue};
use crate::registry::MCPToolResult;
use crate::MCPError;

verus! {

/// Relies on uuid::Uuid::new_v4 and its hyphenated Display form: a
/// fresh random identifier rendered as 36 characters.
#[verifier::external_body]
fn fresh_uuid() -> (r: String)
    ensures
        r@.len() == 36,
{
    uuid::Uuid::new_v4().to_string()
}

/// Relies on chrono::Utc::now and DateTime::timestamp: the clock's
/// current time in whole seconds since the Unix epoch.  Nothing is
/// promised of the value.
#[verifier::external_body]
fn now_epoch_seconds() -> (r: i64) {
    chrono::Utc::now().timestamp()
}

/// One immutable account of a single operation: identity, timing and
/// outcome, tagged with the server process's session.
#[derive(Debug)]
pub struct AuditableOperation {
    pub id: String,
    pub name: String,
    pub parameters: JsonValue,
    pub user_context: Option<String>,
    pub timestamp: i64,
    pub result: Result<String, String>,
    pub session_id: String,
}

/// An audit record as it appears in specifications.
pub ghost struct AuditV {
    pub id: Seq<char>,
    pub name: Seq<char>,
    pub parameters: JsonV,
    pub user_context: Option<Seq<char>>,
    pub timestamp: int,
    pub result: Result<Seq<char>, Seq<char>>,
    pub session_id: Seq<char>,
}

impl View for AuditableOperation {
    type V = AuditV;

    open spec fn view(&self) -> AuditV {
        AuditV {
            id: self.id@,
            name: self.name@,
            parameters: jv_of(self.parameters),
            user_context: match self.user_context {
                Some(u) => Some(u@),
                None => None,
            },
            timestamp: self.timestamp as int,
            result: match self.result {
                Ok(s) => Ok(s@),
                Err(e) => Err(e@),
            },
            session_id: self.session_id@,
        }
    }
}

/// The document form of a record's outcome: a tagged object.
pub open spec fn outcome_jv(r: Result<Seq<char>, Seq<char>>) -> JsonV {
    match r {
        Ok(s) => JsonV::Obj(seq![("Ok"@, JsonV::Str(s))]),
        Err(e) => JsonV::Obj(seq![("Err"@, JsonV::Str(e))]),
    }
}

/// The document form of one audit record: one self-contained object per
/// ledger line.
pub open spec fn audit_jv(a: AuditV) -> JsonV {
    JsonV::Obj(
        seq![
            ("id"@, JsonV::Str(a.id)),
            ("name"@, JsonV::Str(a.name)),
            ("parameters"@, a.parameters),
            (
                "user_context"@,
                match a.user_context {
                    Some(u) => JsonV::Str(u),
                    None => JsonV::Null,
                },
            ),
            ("timestamp"@, JsonV::Int(a.timestamp)),
            ("result"@, outcome_jv(a.result)),
            ("session_id"@, JsonV::Str(a.session_id)),
        ],
    )
}

impl AuditableOperation {
    /// The document form of this record.
    pub fn to_json(&self) -> (v: JsonValue)
        ensures
            v@ == audit_jv(self@),
    {
        let mut ps: Vec<(String, JsonValue)> = Vec::new();
        ps.push((String::from_str("id"), JsonValue::Str(self.id.clone())));
        ps.push((String::from_str("name"), JsonValue::Str(self.name.clone())));
        ps.push((String::from_str("parameters"), self.parameters.duplicate()));
        let uc: JsonValue = match &self.user_context {
            Some(u) => JsonValue::Str(u.clone()),
            None => JsonValue::Null,
        };
        ps.push((String::from_str("user_context"), uc));
        ps.push((String::from_str("timestamp"), JsonValue::Int(self.timestamp)));
        let outcome: JsonValue = match &self.result {
            Ok(s) => {
                let mut m: Vec<(String, JsonValue)> = Vec::new();
                m.push((String::from_str("Ok"), JsonValue::Str(s.clone())));
                proof {
                    lemma_jv_of_pairs(m@);
                    assert(crate::json::jv_of_pairs(m@) =~= outcome_jv(self@.result)->Obj_0);
                }
                JsonValue::Obj(m)
            },
            Err(e) => {
                let mut m: Vec<(String, JsonValue)> = Vec::new();
                m.push((String::from_str("Err"), JsonValue::Str(e.clone())));
                proof {
                    lemma_jv_of_pairs(m@);
                    assert(crate::json::jv_of_pairs(m@) =~= outcome_jv(self@.result)->Obj_0);
                }
                JsonValue::Obj(m)
            },
        };
        ps.push((String::from_str("result"), outcome));
        ps.push((String::from_str("session_id"), JsonValue::Str(self.session_id.clone())));
        proof {
            lemma_jv_of_pairs(ps@);
            assert(crate::json::jv_of_pairs(ps@) =~= audit_jv(self@)->Obj_0);
        }
        JsonValue::Obj(ps)
    }

    /// The one ledger line this record occupies.
    pub fn to_line(&self) -> (s: String)
        ensures
            s@ == json_chars(audit_jv(self@)),
    {
        let v = self.to_json();
        crate::json::to_text(&v)
    }
}

/// The append-only ledger: the path it will be persisted under, and the
/// records appended so far, oldest first.  Records are never changed or
/// removed once appended.
pub struct AuditLogger {
    pub log_path: String,
    pub ledger: Vec<AuditableOperation>,
}

impl AuditLogger {
    /// An empty ledger for the given path.
    pub fn new(log_path: String) -> (r: AuditLogger)
        ensures
            r.log_path@ == log_path@,
            r.ledger@.len() == 0,
    {
        AuditLogger { log_path, ledger: Vec::new() }
    }

    /// Appends one record; everything already in the ledger stays as it
    /// was.
    pub fn log(&mut self, entry: AuditableOperation)
        ensures
            final(self).ledger@ == old(self).ledger@.push(entry),
            final(self).ledger@.len() == old(self).ledger@.len() + 1,
            final(self).log_path == old(self).log_path,
    {
        self.ledger.push(entry);
    }

    /// How many records the ledger holds.
    pub fn len(&self) -> (n: usize)
        ensures
            n == self.ledger@.len(),
    {
        self.ledger.len()
    }

    /// The wire line of the record at `i`, for persisting.
    pub fn render(&self, i: usize) -> (s: String)
        requires
            i < self.ledger@.len(),
        ensures
            s@ == json_chars(audit_jv(self.ledger@[i as int]@)),
    {
        self.ledger[i].to_line()
    }
}

/// The session-scoped security context: one fixed session identity, an
/// audit ledger, and the authentication switch.
pub struct SecurityManager {
    pub require_auth: bool,
    pub audit_logger: AuditLogger,
    pub session_id: String,
    pub user_context: Option<String>,
}

impl SecurityManager {
    /// A fresh manager with a new random session identity and an empty
    /// ledger.
    pub fn new(require_auth: bool, audit_log_path: &str) -> (r: Result<SecurityManager, MCPError>)
        ensures
            r matches Ok(m) && m.require_auth == require_auth && m.audit_logger.ledger@.len() == 0
                && m.audit_logger.log_path@ == audit_log_path@ && m.session_id@.len() == 36
                && m.user_context is None,
    {
        let audit_logger = AuditLogger::new(audit_log_path.to_owned());
        let session_id = fresh_uuid();
        Ok(SecurityManager { require_auth, audit_logger, session_id, user_context: None })
    }

    /// Sets the user identity recorded with every audit record.
    pub fn set_user_context(&mut self, user: Option<String>)
        ensures
            final(self).user_context == user,
            final(self).require_auth == old(self).require_auth,
            final(self).audit_logger == old(self).audit_logger,
            final(self).session_id == old(self).session_id,
    {
        self.user_context = user;
    }

    /// Checks whether the session may run the operation.  Every
    /// operation is allowed; the check exists so that call sites are
    /// explicit about where permission is enforced.
    pub fn check_permission(&self, operation: &str) -> (r: Result<(), MCPError>)
        ensures
            r is Ok,
    {
        let _ = operation;
        Ok(())
    }

    /// The start timestamp of an operation about to run, read from the
    /// clock.
    pub fn start_operation(&self) -> (t: i64) {
        now_epoch_seconds()
    }

    /// Appends the one audit record of a completed operation: a fresh
    /// operation identity, the operation's name, the snapshot of its
    /// parameters, its captured start time, this session's identity,
    /// and the given outcome.
    pub fn record_operation(
        &mut self,
        operation_name: &str,
        parameters: JsonValue,
        started: i64,
        outcome: Result<String, String>,
    )
        ensures
            final(self).audit_logger.ledger@.len() == old(self).audit_logger.ledger@.len() + 1,
            final(self).audit_logger.ledger@.subrange(
                0,
                old(self).audit_logger.ledger@.len() as int,
            ) == old(self).audit_logger.ledger@,
            final(self).audit_logger.ledger@.last().name@ == operation_name@,
            final(self).audit_logger.ledger@.last()@.parameters == jv_of(parameters),
            final(self).audit_logger.ledger@.last().timestamp == started,
            final(self).audit_logger.ledger@.last().session_id@ == old(self).session_id@,
            final(self).audit_logger.ledger@.last().result is Ok <==> outcome is Ok,
            final(self).session_id == old(self).session_id,
            final(self).require_auth == old(self).require_auth,
            final(self).user_context == old(self).user_context,
            final(self).audit_logger.log_path == old(self).audit_logger.log_path,
    {
        let operation_id = fresh_uuid();
        let user_context: Option<String> = match &self.user_context {
            Some(u) => Some(u.clone()),
            None => None,
        };
        let entry = AuditableOperation {
            id: operation_id,
            name: operation_name.to_owned(),
            parameters,
            user_context,
            timestamp: started,
            result: outcome,
            session_id: self.session_id.clone(),
        };
        self.audit_logger.log(entry);
        proof {
            assert(self.audit_logger.ledger@.last() == entry);
            assert(self.audit_logger.ledger@.subrange(
                0,
                old(self).audit_logger.ledger@.len() as int,
            ) =~= old(self).audit_logger.ledger@);
        }
    }

    /// Runs one operation under audit: captures the start time, runs
    /// the operation to completion, and — whatever it returned —
    /// appends exactly one record carrying the operation's name, the
    /// snapshot of its parameters, the start time, this session's
    /// identity, and the outcome; the operation's own result is
    /// returned unchanged.
    pub fn execute_with_audit<F: FnOnce() -> Result<MCPToolResult, MCPError>>(
        &mut self,
        operation_name: &str,
        parameters: JsonValue,
        operation: F,
    ) -> (r: Result<MCPToolResult, MCPError>)
        requires
            operation.requires(()),
        ensures
            operation.ensures((), r),
            final(self).audit_logger.ledger@.len() == old(self).audit_logger.ledger@.len() + 1,
            final(self).audit_logger.ledger@.subrange(
                0,
                old(self).audit_logger.ledger@.len() as int,
            ) == old(self).audit_logger.ledger@,
            final(self).audit_logger.ledger@.last().name@ == operation_name@,
            final(self).audit_logger.ledger@.last()@.parameters == jv_of(parameters),
            final(self).audit_logger.ledger@.last().session_id@ == old(self).session_id@,
            final(self).audit_logger.ledger@.last().result is Ok <==> r is Ok,
            final(self).session_id == old(self).session_id,
            final(self).require_auth == old(self).require_auth,
            final(self).user_context == old(self).user_context,
            final(self).audit_logger.log_path == old(self).audit_logger.log_path,
    {
        let started = self.start_operation();
        let result = operation();
        let outcome: Result<String, String> = match &result {
            Ok(_) => Ok(String::from_str("Success")),
            Err(e) => Err(e.message()),
        };
        self.record_operation(operation_name, parameters, started, outcome);
        result
    }
}

/// One file preserved in a snapshot: its path, contents and mode bits.
#[derive(Debug, Clone)]
pub struct FileBackup {
    pub path: String,
    pub content: String,
    pub permissions: u32,
}

/// One service's state at snapshot time.
#[derive(Debug, Clone)]
pub struct ServiceState {
    pub name: String,
    pub enabled: bool,
    pub active: bool,
}

/// A whole snapshot: identity, time, description, preserved files and
/// service states.
#[derive(Debug, Clone)]
pub struct SystemSnapshot {
    pub id: String,
    pub timestamp: i64,
    pub description: String,
    pub files_backup: Vec<FileBackup>,
    pub service_states: Vec<ServiceState>,
}

/// Plans snapshot and rollback work; the file copying and service
/// control happen in the embedding program.
#[derive(Debug, Clone)]
pub struct RollbackManager {
    pub snapshots_dir: String,
}

impl RollbackManager {
    /// A manager over the stock snapshot directory.
    pub fn new() -> (r: RollbackManager)
        ensures
            r.snapshots_dir@ == "/var/lib/mcp-arch-linux/snapshots"@,
    {
        RollbackManager { snapshots_dir: String::from_str("/var/lib/mcp-arch-linux/snapshots") }
    }

    /// The same manager over the given directory.
    pub fn with_snapshots_dir(self, snapshots_dir: String) -> (r: RollbackManager)
        ensures
            r.snapshots_dir@ == snapshots_dir@,
    {
        RollbackManager { snapshots_dir }
    }

    /// The file a snapshot is stored under.
    pub fn snapshot_path(&self, snapshot_id: &str) -> (p: String)
        ensures
            p@ == self.snapshots_dir@ + "/"@ + snapshot_id@ + ".json"@,
    {
        self.snapshots_dir.clone().concat("/").concat(snapshot_id).concat(".json")
    }

    /// The command sequence that restores one service's state: enable
    /// or disable, then start or stop.
    pub fn restore_service_plan(&self, state: &ServiceState) -> (cmds: Vec<
        crate::command::PlannedCommand,
    >)
        ensures
            cmds@.len() == 2,
            cmds@[0].program@ == "systemctl"@,
            cmds@[0].args.deep_view() == seq![
                if state.enabled {
                    "enable"@
                } else {
                    "disable"@
                },
                state.name@,
            ],
            cmds@[1].program@ == "systemctl"@,
            cmds@[1].args.deep_view() == seq![
                if state.active {
                    "start"@
                } else {
                    "stop"@
                },
                state.name@,
            ],
    {
        let mut cmds: Vec<crate::command::PlannedCommand> = Vec::new();
        let first: String = if state.enabled {
            String::from_str("enable")
        } else {
            String::from_str("disable")
        };
        let mut a1: Vec<String> = Vec::new();
        proof {
            assert(a1.deep_view() =~= Seq::<Seq<char>>::empty());
        }
        crate::command::push_arg(&mut a1, first);
        crate::command::push_arg(&mut a1, state.name.clone());
        cmds.push(
            crate::command::PlannedCommand { program: String::from_str("systemctl"), args: a1 },
        );
        let second: String = if state.active {
            String::from_str("start")
        } else {
            String::from_str("stop")
        };
        let mut a2: Vec<String> = Vec::new();
        proof {
            assert(a2.deep_view() =~= Seq::<Seq<char>>::empty());
        }
        crate::command::push_arg(&mut a2, second);
        crate::command::push_arg(&mut a2, state.name.clone());
        cmds.push(
            crate::command::PlannedCommand { program: String::from_str("systemctl"), args: a2 },
        );
        proof {
            assert(cmds@[0].args.deep_view() =~= seq![
                if state.enabled {
                    "enable"@
                } else {
                    "disable"@
                },
                state.name@,
            ]);
            assert(cmds@[1].args.deep_view() =~= seq![
                if state.active {
                    "start"@
                } else {
                    "stop"@
                },
                state.name@,
            ]);
        }
        cmds
    }
}

} // verus!
