//! Enrollment session state and the bridge operations over it.
//!
//! A session holds an optional handle to the enrollment-protocol client
//! (modelled here as the fact that one exists) and a single-slot cache of
//! the most recent completed enrollment outcome. The bridge operations are
//! the four lifecycle calls the foreign surface exposes: initialize once,
//! start an attempt (validate and build the request handed to a background
//! worker), poll the slot into bounded buffers, and clear the slot. The
//! worker's only effect on the session is `install_outcome`.

use vstd::prelude::*;

use crate::buffer::copy_and_terminate;
use crate::buffer::rendered;

verus! {

/// Whether a byte sequence is valid UTF-8, as `core::str::from_utf8`
/// decides it.
pub uninterp spec fn utf8_valid(bytes: Seq<u8>) -> bool;

/// Relies on core::str::from_utf8: it returns `Ok` exactly when the bytes
/// are valid UTF-8.
#[verifier::external_body]
fn check_utf8(bytes: &Vec<u8>) -> (r: bool)
    ensures
        r == utf8_valid(bytes@),
{
    match core::str::from_utf8(bytes.as_slice()) {
        Ok(_) => true,
        Err(_) => false,
    }
}

/// One enrollment request, immutable once constructed, owned exclusively
/// by the in-flight attempt that carries it to the protocol client.
pub struct EnrollmentRequest {
    /// Server URL text (validated UTF-8 bytes).
    pub server_url: Vec<u8>,
    /// Username text (validated UTF-8 bytes).
    pub username: Vec<u8>,
    /// Password text (validated UTF-8 bytes).
    pub password: Vec<u8>,
    /// Requested certificate validity; absent means the protocol default.
    pub validity_days: Option<u32>,
    /// Requested common name; the bridge never sets one.
    pub common_name: Option<Vec<u8>>,
}

impl EnrollmentRequest {
    /// Every required text field decodes as UTF-8.
    pub open spec fn well_formed(self) -> bool {
        &&& utf8_valid(self.server_url@)
        &&& utf8_valid(self.username@)
        &&& utf8_valid(self.password@)
    }
}

/// One completed, successful enrollment: the certificate bundle plus the
/// server endpoint it came from.
pub struct EnrollmentResult {
    /// Client certificate PEM text.
    pub cert_pem: Vec<u8>,
    /// Client private key PEM text.
    pub key_pem: Vec<u8>,
    /// CA certificate PEM text, when the bundle carried one.
    pub ca_pem: Option<Vec<u8>>,
    /// Server hostname.
    pub server_host: Vec<u8>,
    /// Server port.
    pub server_port: u16,
}

/// Mathematical image of an `EnrollmentResult`.
pub struct ResultModel {
    pub cert_pem: Seq<u8>,
    pub key_pem: Seq<u8>,
    pub ca_pem: Option<Seq<u8>>,
    pub server_host: Seq<u8>,
    pub server_port: u16,
}

impl View for EnrollmentResult {
    type V = ResultModel;

    open spec fn view(&self) -> ResultModel {
        ResultModel {
            cert_pem: self.cert_pem@,
            key_pem: self.key_pem@,
            ca_pem: match self.ca_pem {
                Option::Some(ca) => Option::Some(ca@),
                Option::None => Option::None,
            },
            server_host: self.server_host@,
            server_port: self.server_port,
        }
    }
}

impl EnrollmentResult {
    /// Builds the cached result from the fields of the protocol client's
    /// bundle: an absent certificate or key becomes the empty text, an
    /// absent CA stays absent, and an absent port defaults to 8089.
    pub fn from_bundle(
        cert_pem: Option<Vec<u8>>,
        key_pem: Option<Vec<u8>>,
        ca_pem: Option<Vec<u8>>,
        server_host: Vec<u8>,
        server_port: Option<u16>,
    ) -> (r: EnrollmentResult)
        ensures
            r@.cert_pem == match cert_pem {
                Option::Some(c) => c@,
                Option::None => Seq::<u8>::empty(),
            },
            r@.key_pem == match key_pem {
                Option::Some(k) => k@,
                Option::None => Seq::<u8>::empty(),
            },
            r@.ca_pem == match ca_pem {
                Option::Some(ca) => Option::Some(ca@),
                Option::None => Option::<Seq<u8>>::None,
            },
            r@.server_host == server_host@,
            r@.server_port == match server_port {
                Option::Some(p) => p,
                Option::None => 8089u16,
            },
    {
        let cert = match cert_pem {
            Option::Some(c) => c,
            Option::None => Vec::new(),
        };
        let key = match key_pem {
            Option::Some(k) => k,
            Option::None => Vec::new(),
        };
        let port = match server_port {
            Option::Some(p) => p,
            Option::None => 8089,
        };
        EnrollmentResult { cert_pem: cert, key_pem: key, ca_pem, server_host, server_port: port }
    }
}

/// Mathematical image of an `EnrollmentSession`.
pub struct SessionModel {
    /// Whether a protocol client handle exists.
    pub initialized: bool,
    /// The single-slot cache: absent means "no completed attempt since the
    /// last clear"; a failed attempt installs absent too.
    pub last_result: Option<ResultModel>,
}

/// A session as the host process first constructs it.
pub open spec fn fresh_session() -> SessionModel {
    SessionModel { initialized: false, last_result: Option::None }
}

/// What `init` does to the session state.
pub open spec fn init_step(s: SessionModel) -> SessionModel {
    SessionModel { initialized: true, ..s }
}

/// What `clear_result` does to the session state.
pub open spec fn clear_step(s: SessionModel) -> SessionModel {
    SessionModel { last_result: Option::None, ..s }
}

/// What a finishing background worker does to the session state: its
/// outcome replaces the slot wholesale, success and failure alike.
pub open spec fn install_step(s: SessionModel, outcome: Option<ResultModel>) -> SessionModel {
    SessionModel { last_result: outcome, ..s }
}

/// The status a poll reports: available, or failed-or-not-started.
pub open spec fn poll_status(s: SessionModel) -> i32 {
    if s.last_result is Some {
        1
    } else {
        -1i32
    }
}

/// An error a bridge entry point reports as a negative status across the
/// foreign boundary.
#[derive(Debug, PartialEq, Eq, Structural)]
pub enum BridgeError {
    /// A required text input was absent or not valid UTF-8.
    InputValidation,
    /// No protocol client handle exists: `init` has not run.
    Uninitialized,
}

/// A required text input is present and decodes as UTF-8.
pub open spec fn text_ok(t: Option<Vec<u8>>) -> bool {
    t is Some && utf8_valid(t->0@)
}

/// Process-level enrollment session: the client handle's existence and the
/// single-slot cache of the most recent completed outcome.
pub struct EnrollmentSession {
    initialized: bool,
    last_result: Option<EnrollmentResult>,
}

impl View for EnrollmentSession {
    type V = SessionModel;

    closed spec fn view(&self) -> SessionModel {
        SessionModel {
            initialized: self.initialized,
            last_result: match self.last_result {
                Option::Some(r) => Option::Some(r@),
                Option::None => Option::None,
            },
        }
    }
}

/// The per-field outputs of one poll, ready to be copied verbatim into the
/// caller's buffers: each text is present exactly when a result exists and
/// a destination of nonzero capacity was provided.
pub struct PollOutput {
    /// 1 when a result is available, -1 when failed-or-not-started.
    pub status: i32,
    pub cert: Option<Vec<u8>>,
    pub key: Option<Vec<u8>>,
    pub ca: Option<Vec<u8>>,
    pub host: Option<Vec<u8>>,
    pub port: Option<u16>,
}

/// Mathematical image of a `PollOutput`.
pub struct PollModel {
    pub status: i32,
    pub cert: Option<Seq<u8>>,
    pub key: Option<Seq<u8>>,
    pub ca: Option<Seq<u8>>,
    pub host: Option<Seq<u8>>,
    pub port: Option<u16>,
}

impl View for PollOutput {
    type V = PollModel;

    open spec fn view(&self) -> PollModel {
        PollModel {
            status: self.status,
            cert: match self.cert {
                Option::Some(v) => Option::Some(v@),
                Option::None => Option::None,
            },
            key: match self.key {
                Option::Some(v) => Option::Some(v@),
                Option::None => Option::None,
            },
            ca: match self.ca {
                Option::Some(v) => Option::Some(v@),
                Option::None => Option::None,
            },
            host: match self.host {
                Option::Some(v) => Option::Some(v@),
                Option::None => Option::None,
            },
            port: self.port,
        }
    }
}

/// What a poll writes for one required text field: the bounded
/// zero-terminated copy when a destination of nonzero capacity was
/// provided, nothing otherwise.
pub open spec fn field_out(field: Seq<u8>, cap: Option<usize>) -> Option<Seq<u8>> {
    match cap {
        Option::Some(c) => if c >= 1 {
            Option::Some(rendered(field, c as nat))
        } else {
            Option::None
        },
        Option::None => Option::None,
    }
}

/// What a poll writes for the optional CA field: as a required field when
/// the result carries CA text, and the empty text (terminator alone) when
/// it does not.
pub open spec fn ca_out(ca: Option<Seq<u8>>, cap: Option<usize>) -> Option<Seq<u8>> {
    match cap {
        Option::Some(c) => if c >= 1 {
            match ca {
                Option::Some(f) => Option::Some(rendered(f, c as nat)),
                Option::None => Option::Some(seq![0u8]),
            }
        } else {
            Option::None
        },
        Option::None => Option::None,
    }
}

/// The whole snapshot one poll takes of a session: status, the four
/// rendered texts, and the port.
pub open spec fn poll_step(
    s: SessionModel,
    cert_cap: Option<usize>,
    key_cap: Option<usize>,
    ca_cap: Option<usize>,
    host_cap: Option<usize>,
    want_port: bool,
) -> PollModel {
    match s.last_result {
        Option::None => PollModel {
            status: -1i32,
            cert: Option::None,
            key: Option::None,
            ca: Option::None,
            host: Option::None,
            port: Option::None,
        },
        Option::Some(r) => PollModel {
            status: 1,
            cert: field_out(r.cert_pem, cert_cap),
            key: field_out(r.key_pem, key_cap),
            ca: ca_out(r.ca_pem, ca_cap),
            host: field_out(r.server_host, host_cap),
            port: if want_port {
                Option::Some(r.server_port)
            } else {
                Option::None
            },
        },
    }
}

impl EnrollmentSession {
    /// A session before any bridge call: no client handle, empty slot.
    pub fn new() -> (s: EnrollmentSession)
        ensures
            s@ == fresh_session(),
    {
        EnrollmentSession { initialized: false, last_result: Option::None }
    }

    /// Installs a protocol client handle when none exists and is a no-op
    /// otherwise; always reports success.
    pub fn init(&mut self) -> (status: i32)
        ensures
            final(self)@ == init_step(old(self)@),
            status == 0,
    {
        self.initialized = true;
        0
    }

    /// Validates the foreign inputs for one enrollment attempt and builds
    /// the request a background worker is to carry to the protocol client.
    /// An absent or non-UTF-8 text is rejected as `InputValidation`; valid
    /// inputs on an uninitialized session are rejected as `Uninitialized`.
    /// A zero validity means "use the protocol default". The session
    /// itself is untouched: only the worker's eventual `install_outcome`
    /// changes the slot.
    pub fn start_enrollment(
        &self,
        server_url: Option<Vec<u8>>,
        username: Option<Vec<u8>>,
        password: Option<Vec<u8>>,
        validity_days: u32,
    ) -> (r: Result<EnrollmentRequest, BridgeError>)
        ensures
            r is Ok <==> text_ok(server_url) && text_ok(username) && text_ok(password)
                && self@.initialized,
            r is Err && r->Err_0 is InputValidation <==> !(text_ok(server_url) && text_ok(username)
                && text_ok(password)),
            r is Err && r->Err_0 is Uninitialized <==> text_ok(server_url) && text_ok(username)
                && text_ok(password) && !self@.initialized,
            r is Ok ==> {
                let req = r->Ok_0;
                &&& req.server_url@ == server_url->0@
                &&& req.username@ == username->0@
                &&& req.password@ == password->0@
                &&& req.validity_days == (if validity_days == 0 {
                    Option::<u32>::None
                } else {
                    Option::Some(validity_days)
                })
                &&& req.common_name is None
                &&& req.well_formed()
            },
    {
        let server_url = match server_url {
            Option::Some(v) => v,
            Option::None => {
                return Result::Err(BridgeError::InputValidation);
            },
        };
        let username = match username {
            Option::Some(v) => v,
            Option::None => {
                return Result::Err(BridgeError::InputValidation);
            },
        };
        let password = match password {
            Option::Some(v) => v,
            Option::None => {
                return Result::Err(BridgeError::InputValidation);
            },
        };
        if !check_utf8(&server_url) || !check_utf8(&username) || !check_utf8(&password) {
            return Result::Err(BridgeError::InputValidation);
        }
        if !self.initialized {
            return Result::Err(BridgeError::Uninitialized);
        }
        Result::Ok(
            EnrollmentRequest {
                server_url,
                username,
                password,
                validity_days: if validity_days == 0 {
                    Option::None
                } else {
                    Option::Some(validity_days)
                },
                common_name: Option::None,
            },
        )
    }

    /// What a finished background attempt does to the slot: installs its
    /// outcome wholesale — the full bundle on success, absent on failure,
    /// replacing whatever was there.
    pub fn install_outcome(&mut self, outcome: Option<EnrollmentResult>)
        ensures
            final(self)@ == install_step(
                old(self)@,
                match outcome {
                    Option::Some(r) => Option::Some(r@),
                    Option::None => Option::None,
                },
            ),
    {
        self.last_result = outcome;
    }

    /// Pure snapshot read of the slot. Each `*_cap` is the capacity of a
    /// caller-owned text buffer, absent when that field is to be skipped;
    /// `want_port` says whether a port destination was provided. With an
    /// empty slot the status is -1 and nothing is produced; otherwise the
    /// status is 1 and each requested text comes back as its bounded
    /// zero-terminated copy, an absent CA as the empty text.
    pub fn poll_result(
        &self,
        cert_cap: Option<usize>,
        key_cap: Option<usize>,
        ca_cap: Option<usize>,
        host_cap: Option<usize>,
        want_port: bool,
    ) -> (out: PollOutput)
        ensures
            out@ == poll_step(self@, cert_cap, key_cap, ca_cap, host_cap, want_port),
    {
        match &self.last_result {
            Option::None => PollOutput {
                status: -1,
                cert: Option::None,
                key: Option::None,
                ca: Option::None,
                host: Option::None,
                port: Option::None,
            },
            Option::Some(r) => {
                let cert = render_field(&r.cert_pem, cert_cap);
                let key = render_field(&r.key_pem, key_cap);
                let ca = render_ca_field(&r.ca_pem, ca_cap);
                let host = render_field(&r.server_host, host_cap);
                let port = if want_port {
                    Option::Some(r.server_port)
                } else {
                    Option::None
                };
                PollOutput { status: 1, cert, key, ca, host, port }
            },
        }
    }

    /// Unconditionally empties the slot. An attempt still in flight is
    /// unaffected and will later overwrite the slot with its own outcome.
    pub fn clear_result(&mut self)
        ensures
            final(self)@ == clear_step(old(self)@),
    {
        self.last_result = Option::None;
    }
}

/// Renders one required text field of a poll.
fn render_field(field: &Vec<u8>, cap: Option<usize>) -> (out: Option<Vec<u8>>)
    ensures
        match out {
            Option::Some(v) => field_out(field@, cap) == Option::Some(v@),
            Option::None => field_out(field@, cap) is None,
        },
{
    match cap {
        Option::Some(c) => if c >= 1 {
            Option::Some(copy_and_terminate(field, c))
        } else {
            Option::None
        },
        Option::None => Option::None,
    }
}

/// Renders the optional CA field of a poll: an absent CA becomes the empty
/// text, a single terminator byte.
fn render_ca_field(ca: &Option<Vec<u8>>, cap: Option<usize>) -> (out: Option<Vec<u8>>)
    ensures
        match out {
            Option::Some(v) => ca_out(
                match *ca {
                    Option::Some(f) => Option::Some(f@),
                    Option::None => Option::None,
                },
                cap,
            ) == Option::Some(v@),
            Option::None => ca_out(
                match *ca {
                    Option::Some(f) => Option::Some(f@),
                    Option::None => Option::None,
                },
                cap,
            ) is None,
        },
{
    match cap {
        Option::Some(c) => if c >= 1 {
            match ca {
                Option::Some(f) => Option::Some(copy_and_terminate(f, c)),
                Option::None => {
                    let mut v: Vec<u8> = Vec::new();
                    v.push(0);
                    proof {
                        assert(v@ =~= seq![0u8]);
                    }
                    Option::Some(v)
                },
            }
        } else {
            Option::None
        },
        Option::None => Option::None,
    }
}

/// Law: initialization is idempotent — a second `init` leaves the session
/// exactly as the first left it, and both report the same status.
pub proof fn lemma_init_idempotent(s: SessionModel)
    ensures
        init_step(init_step(s)) == init_step(s),
{
}

/// A bridge operation that neither starts nor finishes an attempt.
pub enum MaintenanceOp {
    Init,
    Clear,
}

/// One maintenance call applied to the session state.
pub open spec fn maintenance_step(s: SessionModel, op: MaintenanceOp) -> SessionModel {
    match op {
        MaintenanceOp::Init => init_step(s),
        MaintenanceOp::Clear => clear_step(s),
    }
}

/// A whole sequence of maintenance calls applied in order.
pub open spec fn run_maintenance(s: SessionModel, ops: Seq<MaintenanceOp>) -> SessionModel
    decreases ops.len(),
{
    if ops.len() == 0 {
        s
    } else {
        run_maintenance(maintenance_step(s, ops[0]), ops.drop_first())
    }
}

/// Law: without a completed attempt, no sequence of `init` and
/// `clear_result` calls fills the slot, so a poll after any such sequence
/// still reports unavailable.
pub proof fn lemma_no_attempt_no_result(s: SessionModel, ops: Seq<MaintenanceOp>)
    requires
        s.last_result is None,
    ensures
        run_maintenance(s, ops).last_result is None,
        poll_status(run_maintenance(s, ops)) == -1,
    decreases ops.len(),
{
    if ops.len() > 0 {
        lemma_no_attempt_no_result(maintenance_step(s, ops[0]), ops.drop_first());
    }
}

/// Law: the slot is last-writer-wins — when attempt B installs after
/// attempt A, the session is exactly as if only B had installed, so any
/// subsequent poll returns exactly B's fields and never a mixture.
pub proof fn lemma_last_writer_wins(s: SessionModel, a: ResultModel, b: ResultModel)
    ensures
        install_step(install_step(s, Option::Some(a)), Option::Some(b)) == install_step(
            s,
            Option::Some(b),
        ),
{
}

/// Law: after attempts A then B install, a poll snapshot equals the
/// snapshot of a session where only B ever installed, whatever buffers the
/// poller provides.
pub proof fn lemma_poll_after_race(
    s: SessionModel,
    a: ResultModel,
    b: ResultModel,
    cert_cap: Option<usize>,
    key_cap: Option<usize>,
    ca_cap: Option<usize>,
    host_cap: Option<usize>,
    want_port: bool,
)
    ensures
        poll_step(
            install_step(install_step(s, Option::Some(a)), Option::Some(b)),
            cert_cap,
            key_cap,
            ca_cap,
            host_cap,
            want_port,
        ) == poll_step(
            install_step(s, Option::Some(b)),
            cert_cap,
            key_cap,
            ca_cap,
            host_cap,
            want_port,
        ),
{
}

/// Law: a completed result with no CA text still fills a provided CA
/// destination of capacity at least 1 — with the empty text, a terminator
/// alone — and the poll reports available.
pub proof fn lemma_absent_ca(
    s: SessionModel,
    cert_cap: Option<usize>,
    key_cap: Option<usize>,
    ca_cap: usize,
    host_cap: Option<usize>,
    want_port: bool,
)
    requires
        s.last_result is Some,
        s.last_result->0.ca_pem is None,
        ca_cap >= 1,
    ensures
        poll_step(s, cert_cap, key_cap, Option::Some(ca_cap), host_cap, want_port).status == 1,
        poll_step(s, cert_cap, key_cap, Option::Some(ca_cap), host_cap, want_port).ca
            == Option::Some(seq![0u8]),
{
}

} // verus!
