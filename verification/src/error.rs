//! The error taxonomy: every failure of the service is one of a few kinds,
//! and each kind has one transport status and one structured body.

use vstd::prelude::*;

verus! {

/// What the storage boundary reports when an operation fails.
#[derive(Debug, Clone, Copy, PartialEq, Eq)]
pub enum DatabaseFailure {
    /// A uniqueness constraint rejected the write.
    UniqueViolation,
    /// The caller's deadline passed before the store answered.
    Timeout,
    /// Any other failure of the store.
    Other,
}

/// Why a caller is not authenticated.
#[derive(Debug, Clone, Copy, PartialEq, Eq)]
pub enum AuthFailure {
    /// No authorization header, or one that is not a bearer credential.
    MissingOrMalformedCredential,
    /// The access token is not one this service signed, or cannot be read.
    Invalid,
    /// The access token was genuine but its lifetime is over.
    Expired,
    /// Unknown user name or wrong password.
    InvalidCredentials,
    /// The refresh token is not in the store.
    SessionNotFound,
    /// The refresh token is in the store but its lifetime is over.
    SessionExpired,
}

/// The violations found on one field of a request body. A violation
/// without a text of its own is shown with a standard text.
#[derive(Debug, Clone, PartialEq, Eq)]
pub struct FieldViolation {
    pub field: String,
    pub messages: Vec<Option<String>>,
}

/// The texts shown to the caller for one field of a request body.
#[derive(Debug, Clone, PartialEq, Eq)]
pub struct FieldMessages {
    pub field: String,
    pub messages: Vec<String>,
}

/// The violations found in a request body, field by field. A field's name
/// occurs once: all that is found on a field is kept under its one entry,
/// so that the fields can be read as a map from name to violations.
#[derive(Debug, PartialEq, Eq)]
pub struct FieldErrors {
    fields: Vec<FieldViolation>,
}

/// Every failure the service can answer with.
#[derive(Debug, PartialEq, Eq)]
pub enum AppError {
    Database(DatabaseFailure),
    Auth(AuthFailure),
    NotFound(String),
    Forbidden(String),
    Internal,
    ValidationError(FieldErrors),
    BadRequest(String),
}

/// The body sent with a failure: `status` is always `"error"`, and `errors`
/// is present only for field-validation failures.
#[derive(Debug, Clone, PartialEq, Eq)]
pub struct ErrorBody {
    pub status: String,
    pub message: String,
    pub errors: Option<Vec<FieldMessages>>,
}

/// A failure as the transport sends it: a status code and a body.
#[derive(Debug, Clone, PartialEq, Eq)]
pub struct ErrorResponse {
    pub code: u16,
    pub body: ErrorBody,
}

pub const STATUS_BAD_REQUEST: u16 = 400;

pub const STATUS_UNAUTHORIZED: u16 = 401;

pub const STATUS_FORBIDDEN: u16 = 403;

pub const STATUS_NOT_FOUND: u16 = 404;

pub const STATUS_CONFLICT: u16 = 409;

pub const STATUS_INTERNAL_SERVER_ERROR: u16 = 500;

/// The text shown for a violation that brings none of its own.
pub open spec fn default_violation_text() -> Seq<char> {
    "格式不正确"@
}

/// The text shown for one violation.
pub open spec fn violation_text(message: Option<String>) -> Seq<char> {
    match message {
        Some(text) => text@,
        None => default_violation_text(),
    }
}

impl DatabaseFailure {
    /// A uniqueness violation is a conflict; every other store failure is
    /// the server's own.
    pub open spec fn status(self) -> u16 {
        match self {
            DatabaseFailure::UniqueViolation => STATUS_CONFLICT,
            _ => STATUS_INTERNAL_SERVER_ERROR,
        }
    }

    /// The caller never sees the detail of a store failure.
    pub open spec fn message(self) -> Seq<char> {
        match self {
            DatabaseFailure::UniqueViolation => "记录已存在"@,
            _ => "数据库操作失败"@,
        }
    }
}

impl AuthFailure {
    pub open spec fn message(self) -> Seq<char> {
        match self {
            AuthFailure::MissingOrMalformedCredential => "Token 缺失或格式错误"@,
            AuthFailure::Invalid => "Token 已过期或无效"@,
            AuthFailure::Expired => "Token 已过期或无效"@,
            AuthFailure::InvalidCredentials => "用户名或密码错误"@,
            AuthFailure::SessionNotFound => "登录已过期，请重新登录"@,
            AuthFailure::SessionExpired => "登录已过期，请重新登录"@,
        }
    }

    /// The text sent to the caller for this reason.
    pub fn to_message(self) -> (text: String)
        ensures
            text@ == self.message(),
    {
        match self {
            AuthFailure::MissingOrMalformedCredential => "Token 缺失或格式错误".to_owned(),
            AuthFailure::Invalid => "Token 已过期或无效".to_owned(),
            AuthFailure::Expired => "Token 已过期或无效".to_owned(),
            AuthFailure::InvalidCredentials => "用户名或密码错误".to_owned(),
            AuthFailure::SessionNotFound => "登录已过期，请重新登录".to_owned(),
            AuthFailure::SessionExpired => "登录已过期，请重新登录".to_owned(),
        }
    }
}

/// The text that a violation brings, if it brings one.
pub open spec fn message_view(message: Option<String>) -> Option<Seq<char>> {
    match message {
        Some(text) => Some(text@),
        None => None,
    }
}

impl View for FieldViolation {
    type V = (Seq<char>, Seq<Option<Seq<char>>>);

    /// The field's name and what each of its violations brings, in order.
    open spec fn view(&self) -> (Seq<char>, Seq<Option<Seq<char>>>) {
        (self.field@, self.messages@.map_values(|m: Option<String>| message_view(m)))
    }
}

/// The views of a list of violated fields.
pub open spec fn entries(fields: Seq<FieldViolation>) -> Seq<(Seq<char>, Seq<Option<Seq<char>>>)> {
    fields.map_values(|f: FieldViolation| f@)
}

/// No two of the fields have the same name.
pub open spec fn names_distinct(fields: Seq<FieldViolation>) -> bool {
    forall|i: int, j: int|
        0 <= i < j < fields.len() ==> (#[trigger] fields[i]).field@ != (#[trigger] fields[j]).field@
}

/// No two of the shown fields have the same name.
pub open spec fn shown_names_distinct(fields: Seq<FieldMessages>) -> bool {
    forall|i: int, j: int|
        0 <= i < j < fields.len() ==> (#[trigger] fields[i]).field@ != (#[trigger] fields[j]).field@
}

/// Some entry has this name.
pub open spec fn has_field(entries: Seq<(Seq<char>, Seq<Option<Seq<char>>>)>, name: Seq<char>) -> bool {
    exists|i: int| 0 <= i < entries.len() && (#[trigger] entries[i]).0 == name
}

/// The place of an entry with this name.
pub open spec fn field_index(entries: Seq<(Seq<char>, Seq<Option<Seq<char>>>)>, name: Seq<char>) -> int {
    choose|i: int| 0 <= i < entries.len() && (#[trigger] entries[i]).0 == name
}

/// The entries with one more violation on a field: at the end of the
/// field's own entry where it has one, else as a new entry after all
/// others.
pub open spec fn with_violation(
    entries: Seq<(Seq<char>, Seq<Option<Seq<char>>>)>,
    name: Seq<char>,
    message: Option<Seq<char>>,
) -> Seq<(Seq<char>, Seq<Option<Seq<char>>>)> {
    if has_field(entries, name) {
        let at = field_index(entries, name);
        entries.update(at, (name, entries[at].1.push(message)))
    } else {
        entries.push((name, seq![message]))
    }
}

impl View for FieldErrors {
    type V = Seq<FieldViolation>;

    /// The violated fields, in the order in which each was first added.
    closed spec fn view(&self) -> Seq<FieldViolation> {
        self.fields@
    }
}

impl FieldErrors {
    #[verifier::type_invariant]
    spec fn well_formed(self) -> bool {
        names_distinct(self.fields@)
    }

    /// No violations.
    pub fn new() -> (errors: FieldErrors)
        ensures
            errors@.len() == 0,
    {
        FieldErrors { fields: Vec::new() }
    }

    /// Whether nothing was violated.
    pub fn is_empty(&self) -> (empty: bool)
        ensures
            empty == (self@.len() == 0),
    {
        self.fields.len() == 0
    }

    /// The violated fields, no name among them twice.
    pub fn fields(&self) -> (fields: &Vec<FieldViolation>)
        ensures
            fields@ == self@,
            names_distinct(self@),
    {
        proof {
            use_type_invariant(self);
        }
        &self.fields
    }

    /// The place of the entry with this name.
    fn find(&self, name: &String) -> (at: Option<usize>)
        ensures
            match at {
                Some(at) => at < self.fields.len() && self.fields[at as int].field@ == name@,
                None => forall|k: int| 0 <= k < self.fields.len() ==> (#[trigger] self.fields[k]).field@ != name@,
            },
    {
        let mut i: usize = 0;
        while i < self.fields.len()
            invariant
                i <= self.fields.len(),
                forall|k: int| 0 <= k < i ==> (#[trigger] self.fields[k]).field@ != name@,
            decreases self.fields.len() - i,
        {
            if self.fields[i].field == *name {
                return Some(i);
            }
            i += 1;
        }
        None
    }

    /// Adds a violation of a field, with the text it brings or none. Every
    /// violation is kept: one on a field that has an entry joins that
    /// entry, and one on a new field opens an entry of its own.
    pub fn add(&mut self, field: &str, message: Option<String>)
        ensures
            entries(final(self)@) == with_violation(entries(old(self)@), field@, message_view(message)),
            names_distinct(final(self)@),
    {
        proof {
            use_type_invariant(&*self);
        }
        let name = field.to_owned();
        let found = self.find(&name);
        let mut fields: Vec<FieldViolation> = Vec::new();
        std::mem::swap(&mut self.fields, &mut fields);
        let ghost before = fields@;
        proof {
            assert forall|k: int| 0 <= k < before.len() implies (#[trigger] entries(before)[k]).0
                == before[k].field@ by {}
        }
        match found {
            Some(at) => {
                let mut entry = fields.remove(at);
                entry.messages.push(message);
                fields.insert(at, entry);
                proof {
                    let wanted = entries(before);
                    assert(wanted[at as int].0 == name@);
                    assert(has_field(wanted, name@));
                    let chosen = field_index(wanted, name@);
                    assert(wanted[chosen].0 == name@);
                    if chosen < at {
                        assert(before[chosen].field@ != before[at as int].field@);
                    }
                    if at < chosen {
                        assert(before[at as int].field@ != before[chosen].field@);
                    }
                    assert(fields@ =~= before.update(at as int, entry));
                    assert(entry@.1 =~= wanted[at as int].1.push(message_view(message)));
                    assert(entries(fields@) =~= with_violation(wanted, name@, message_view(message)));
                    assert forall|i: int, j: int| 0 <= i < j < fields@.len() implies (
                    #[trigger] fields@[i]).field@ != (#[trigger] fields@[j]).field@ by {
                        assert(fields@[i].field@ == before[i].field@);
                        assert(fields@[j].field@ == before[j].field@);
                    }
                }
            },
            None => {
                let mut messages: Vec<Option<String>> = Vec::new();
                messages.push(message);
                let entry = FieldViolation { field: name, messages };
                fields.push(entry);
                proof {
                    let wanted = entries(before);
                    assert(!has_field(wanted, name@)) by {
                        if has_field(wanted, name@) {
                            let k = field_index(wanted, name@);
                            assert(wanted[k].0 == before[k].field@);
                        }
                    }
                    assert(entry@.1 =~= seq![message_view(message)]);
                    assert(entries(fields@) =~= with_violation(wanted, name@, message_view(message)));
                    assert forall|i: int, j: int| 0 <= i < j < fields@.len() implies (
                    #[trigger] fields@[i]).field@ != (#[trigger] fields@[j]).field@ by {
                        if j < before.len() {
                            assert(fields@[i] == before[i] && fields@[j] == before[j]);
                        } else {
                            assert(fields@[i] == before[i]);
                        }
                    }
                }
            },
        }
        self.fields = fields;
    }
}

impl FieldViolation {
    /// The field's name and the text of each of its violations, in order.
    pub open spec fn rendered(self) -> (Seq<char>, Seq<Seq<char>>) {
        (self.field@, self.messages@.map_values(|m: Option<String>| violation_text(m)))
    }

    /// The texts to show for this field: each violation's own text, or the
    /// standard one where it has none.
    pub fn to_messages(&self) -> (shown: FieldMessages)
        ensures
            shown@ == self.rendered(),
    {
        let mut messages: Vec<String> = Vec::new();
        let mut i: usize = 0;
        while i < self.messages.len()
            invariant
                i <= self.messages.len(),
                messages.len() == i,
                forall|k: int| 0 <= k < i ==> messages[k]@ == violation_text(self.messages[k]),
            decreases self.messages.len() - i,
        {
            let text = match &self.messages[i] {
                Some(text) => text.clone(),
                None => "格式不正确".to_owned(),
            };
            messages.push(text);
            i += 1;
        }
        let shown = FieldMessages { field: self.field.clone(), messages };
        assert(shown@.1 =~= self.rendered().1);
        shown
    }
}

impl View for FieldMessages {
    type V = (Seq<char>, Seq<Seq<char>>);

    open spec fn view(&self) -> (Seq<char>, Seq<Seq<char>>) {
        (self.field@, self.messages@.map_values(|m: String| m@))
    }
}

/// What the caller is shown for a list of violated fields.
pub open spec fn rendered_fields(violations: Seq<FieldViolation>) -> Seq<(Seq<char>, Seq<Seq<char>>)> {
    violations.map_values(|v: FieldViolation| v.rendered())
}

/// The views of a list of field texts.
pub open spec fn shown_fields(fields: Seq<FieldMessages>) -> Seq<(Seq<char>, Seq<Seq<char>>)> {
    fields.map_values(|f: FieldMessages| f@)
}

/// Renders every violated field, none left out and in the order given.
/// Where no name occurs twice among the fields, none does among what is
/// shown.
pub fn render_violations(violations: &Vec<FieldViolation>) -> (shown: Vec<FieldMessages>)
    ensures
        shown_fields(shown@) == rendered_fields(violations@),
        names_distinct(violations@) ==> shown_names_distinct(shown@),
{
    let mut shown: Vec<FieldMessages> = Vec::new();
    let mut i: usize = 0;
    while i < violations.len()
        invariant
            i <= violations.len(),
            shown.len() == i,
            forall|k: int| 0 <= k < i ==> shown[k]@ == violations[k].rendered(),
        decreases violations.len() - i,
    {
        shown.push(violations[i].to_messages());
        i += 1;
    }
    assert(shown_fields(shown@) =~= rendered_fields(violations@));
    assert forall|i: int, j: int|
        names_distinct(violations@) && 0 <= i < j < shown@.len() implies (#[trigger] shown@[i]).field@ != (
    #[trigger] shown@[j]).field@ by {
        assert(shown@[i]@.0 == violations@[i].rendered().0);
        assert(shown@[j]@.0 == violations@[j].rendered().0);
    }
    shown
}

impl AppError {
    /// The transport status of each kind of failure.
    pub open spec fn status(self) -> u16 {
        match self {
            AppError::Database(failure) => failure.status(),
            AppError::Auth(_) => STATUS_UNAUTHORIZED,
            AppError::NotFound(_) => STATUS_NOT_FOUND,
            AppError::Forbidden(_) => STATUS_FORBIDDEN,
            AppError::Internal => STATUS_INTERNAL_SERVER_ERROR,
            AppError::ValidationError(_) => STATUS_BAD_REQUEST,
            AppError::BadRequest(_) => STATUS_BAD_REQUEST,
        }
    }

    /// The text sent to the caller for each kind of failure.
    pub open spec fn message(self) -> Seq<char> {
        match self {
            AppError::Database(failure) => failure.message(),
            AppError::Auth(reason) => reason.message(),
            AppError::NotFound(what) => what@,
            AppError::Forbidden(why) => why@,
            AppError::Internal => "服务器内部错误"@,
            AppError::ValidationError(_) => "输入校验失败"@,
            AppError::BadRequest(why) => why@,
        }
    }

    /// The per-field texts sent with the failure: present for a validation
    /// failure and for no other kind.
    pub open spec fn field_errors(self) -> Option<Seq<(Seq<char>, Seq<Seq<char>>)>> {
        match self {
            AppError::ValidationError(violations) => Some(rendered_fields(violations@)),
            _ => None,
        }
    }

    /// The status code sent for this failure.
    pub fn status_code(&self) -> (code: u16)
        ensures
            code == self.status(),
    {
        match self {
            AppError::Database(DatabaseFailure::UniqueViolation) => STATUS_CONFLICT,
            AppError::Database(_) => STATUS_INTERNAL_SERVER_ERROR,
            AppError::Auth(_) => STATUS_UNAUTHORIZED,
            AppError::NotFound(_) => STATUS_NOT_FOUND,
            AppError::Forbidden(_) => STATUS_FORBIDDEN,
            AppError::Internal => STATUS_INTERNAL_SERVER_ERROR,
            AppError::ValidationError(_) => STATUS_BAD_REQUEST,
            AppError::BadRequest(_) => STATUS_BAD_REQUEST,
        }
    }

    /// Turns the failure into the status and body that the transport sends.
    pub fn into_response(self) -> (response: ErrorResponse)
        ensures
            response.code == self.status(),
            response.body.status@ == "error"@,
            response.body.message@ == self.message(),
            response.body.errors is Some <==> self is ValidationError,
            match response.body.errors {
                Some(fields) => Some(shown_fields(fields@)) == self.field_errors()
                    && shown_names_distinct(fields@),
                None => self.field_errors() is None,
            },
    {
        let code = self.status_code();
        let (message, errors) = match self {
            AppError::Database(DatabaseFailure::UniqueViolation) => ("记录已存在".to_owned(), None),
            AppError::Database(_) => ("数据库操作失败".to_owned(), None),
            AppError::Auth(reason) => (reason.to_message(), None),
            AppError::NotFound(what) => (what, None),
            AppError::Forbidden(why) => (why, None),
            AppError::Internal => ("服务器内部错误".to_owned(), None),
            AppError::ValidationError(violations) => (
                "输入校验失败".to_owned(),
                Some(render_violations(violations.fields())),
            ),
            AppError::BadRequest(why) => (why, None),
        };
        ErrorResponse { code, body: ErrorBody { status: "error".to_owned(), message, errors } }
    }
}

} // verus!
