//! Credentials: tokens that are bound to a role and expire.
//!
//! A credential is issued to whoever presents the secret that is configured
//! for a role. It is valid while the time of its creation plus its lifetime
//! in days lies ahead; after that it stays in the registry and is rejected.

use crate::database::Database;
use crate::error_handling::{shown, QrError, QrErrorView, Result};
use crate::identifier::{hyphenated, id_text, new_id};
use crate::text::{is_alphanumeric, parse_usize, read_usize, same_text};
use crate::ParseError;
use vstd::prelude::*;
use vstd::string::StringExecFns;

verus! {

/// The microseconds of a day.
pub const MICROS_PER_DAY: i64 = 86_400_000_000;

/// What the bearer of a credential may do.
#[derive(Debug, Clone, Copy, PartialEq, Eq, Structural)]
pub enum Role {
    /// May do everything.
    Administrator,
    /// May enter, change and lend items, and no more: what cannot be
    /// undone is not for this role.
    EquipmentManager,
    /// May read.
    General,
}

impl Role {
    /// The name under which the role is stored.
    pub open spec fn text(self) -> Seq<char> {
        match self {
            Role::Administrator => "administrator"@,
            Role::EquipmentManager => "equipment_manager"@,
            Role::General => "general"@,
        }
    }

    /// The role that `s` names, if it names one.
    pub open spec fn named(s: Seq<char>) -> Option<Role> {
        if s == "administrator"@ {
            Some(Role::Administrator)
        } else if s == "equipment_manager"@ {
            Some(Role::EquipmentManager)
        } else if s == "general"@ {
            Some(Role::General)
        } else {
            None
        }
    }

    /// The name of the setting that holds the role's secret.
    pub open spec fn key_name(self) -> Seq<char> {
        match self {
            Role::Administrator => "ADMINISTRATOR_PASS_KEY"@,
            Role::EquipmentManager => "EQUIPMENT_MANAGER_PASS_KEY"@,
            Role::General => "GENERAL_PASS_KEY"@,
        }
    }

    /// The name of the setting that holds the lifetime of the role's
    /// credentials, in days.
    pub open spec fn days_name(self) -> Seq<char> {
        match self {
            Role::Administrator => "ADMINISTRATOR_LIMIT_DAYS"@,
            Role::EquipmentManager => "EQUIPMENT_MANAGER_LIMIT_DAYS"@,
            Role::General => "GENERAL_LIMIT_DAYS"@,
        }
    }

    /// The name under which the role is stored.
    pub fn to_string(&self) -> (s: String)
        ensures
            s@ == self.text(),
    {
        match self {
            Role::Administrator => "administrator".to_owned(),
            Role::EquipmentManager => "equipment_manager".to_owned(),
            Role::General => "general".to_owned(),
        }
    }

    /// Reads a role from its name.
    pub fn parse(s: &str) -> (res: std::result::Result<Role, ParseError>)
        ensures
            match res {
                Ok(role) => Role::named(s@) == Some(role),
                Err(e) => Role::named(s@) is None && e.text@ == s@,
            },
    {
        match str_to_role_opt(s) {
            Some(role) => Ok(role),
            None => Err(ParseError { text: s.to_owned() }),
        }
    }

    /// A role's name names that role.
    pub proof fn name_reads_back(self)
        ensures
            Role::named(self.text()) == Some(self),
    {
        reveal_strlit("administrator");
        reveal_strlit("equipment_manager");
        reveal_strlit("general");
        assert("administrator"@.len() == 13 && "equipment_manager"@.len() == 17 && "general"@.len()
            == 7);
    }

    /// The name of the setting that holds the role's secret.
    fn key_setting(&self) -> (s: String)
        ensures
            s@ == self.key_name(),
    {
        match self {
            Role::Administrator => "ADMINISTRATOR_PASS_KEY".to_owned(),
            Role::EquipmentManager => "EQUIPMENT_MANAGER_PASS_KEY".to_owned(),
            Role::General => "GENERAL_PASS_KEY".to_owned(),
        }
    }

    /// The name of the setting that holds the lifetime in days.
    fn days_setting(&self) -> (s: String)
        ensures
            s@ == self.days_name(),
    {
        match self {
            Role::Administrator => "ADMINISTRATOR_LIMIT_DAYS".to_owned(),
            Role::EquipmentManager => "EQUIPMENT_MANAGER_LIMIT_DAYS".to_owned(),
            Role::General => "GENERAL_LIMIT_DAYS".to_owned(),
        }
    }
}

/// The role that `s` names, or `None` where it names none.
pub fn str_to_role_opt(s: &str) -> (role: Option<Role>)
    ensures
        role == Role::named(s@),
{
    if same_text(s, "administrator") {
        Some(Role::Administrator)
    } else if same_text(s, "equipment_manager") {
        Some(Role::EquipmentManager)
    } else if same_text(s, "general") {
        Some(Role::General)
    } else {
        None
    }
}

/// A kind of operation that a credential is asked for.
#[derive(Debug, Clone, Copy, PartialEq, Eq, Structural)]
pub enum Operation {
    /// Entering or changing a row.
    Change,
    /// Dropping a row, which cannot be undone.
    Destroy,
}

/// Whether `role` may do `operation`: administrators and equipment
/// managers may change, administrators alone may destroy.
pub open spec fn permits(role: Role, operation: Operation) -> bool {
    match operation {
        Operation::Change => role == Role::Administrator || role == Role::EquipmentManager,
        Operation::Destroy => role == Role::Administrator,
    }
}

/// What the guard of `operation` answers to the outcome of a credential's
/// check: it lets a permitted role pass and rejects everything else,
/// whatever went wrong, as unauthorized.
pub open spec fn guard_result(
    role: std::result::Result<Role, QrErrorView>,
    operation: Operation,
) -> std::result::Result<(), QrErrorView> {
    match role {
        Ok(r) => if permits(r, operation) {
            Ok(())
        } else {
            Err(QrErrorView::Authorized)
        },
        Err(_) => Err(QrErrorView::Authorized),
    }
}

/// Whether `role` may do `operation`.
pub fn is_permitted(role: Role, operation: Operation) -> (b: bool)
    ensures
        b == permits(role, operation),
{
    match operation {
        Operation::Change => role == Role::Administrator || role == Role::EquipmentManager,
        Operation::Destroy => role == Role::Administrator,
    }
}

/// Guards `operation`: passes where the credential's check gave a role
/// that may do it.
pub fn authorize(role: &Result<Role>, operation: Operation) -> (res: Result<()>)
    ensures
        shown(res) == guard_result(shown(*role), operation),
{
    match role {
        Ok(r) => if is_permitted(*r, operation) {
            Ok(())
        } else {
            Err(QrError::Authorized)
        },
        Err(_) => Err(QrError::Authorized),
    }
}

/// A credential.
#[derive(Debug, PartialEq, Eq)]
pub struct Passtoken {
    /// The token that the bearer presents.
    pub token: String,
    /// The role that the token is bound to.
    pub role: Role,
    /// When the credential was issued.
    pub created_at: i64,
    /// For how many days from then the credential is valid.
    pub limit_days: i32,
}

/// What a credential holds, its token by its characters.
pub struct PasstokenView {
    pub token: Seq<char>,
    pub role: Role,
    pub created_at: i64,
    pub limit_days: i32,
}

impl PasstokenView {
    /// The moment from which the credential is rejected.
    pub open spec fn expires_at(self) -> int {
        self.created_at + self.limit_days * MICROS_PER_DAY
    }

    /// Whether the credential is valid at the time `now`: its expiry lies
    /// ahead.
    pub open spec fn valid_at(self, now: i64) -> bool {
        self.expires_at() > now
    }
}

impl View for Passtoken {
    type V = PasstokenView;

    open spec fn view(&self) -> PasstokenView {
        PasstokenView {
            token: self.token@,
            role: self.role,
            created_at: self.created_at,
            limit_days: self.limit_days,
        }
    }
}

impl Clone for Passtoken {
    fn clone(&self) -> (copy: Self)
        ensures
            copy@ == self@,
    {
        Passtoken {
            token: self.token.clone(),
            role: self.role,
            created_at: self.created_at,
            limit_days: self.limit_days,
        }
    }
}

/// The lifetime in days as a credential holds it: `limit` itself where it
/// fits, else the number that the lowest 32 bits of `limit` spell in two's
/// complement.
pub open spec fn days_of(limit: usize) -> i32 {
    let low = (limit as int) % 0x1_0000_0000;
    if low < 0x8000_0000 {
        low as i32
    } else {
        (low - 0x1_0000_0000) as i32
    }
}

/// A token has the right shape when it is the text of an identifier with
/// 200 to 299 ASCII letters and digits behind it.
pub open spec fn well_shaped_token(t: Seq<char>) -> bool {
    &&& 236 <= t.len() < 336
    &&& exists|id: u128| t.subrange(0, 36) == #[trigger] hyphenated(id)
    &&& forall|i: int| 36 <= i < t.len() ==> is_alphanumeric(#[trigger] t[i])
}

/// `Rng::gen_range` on the generator of the thread, for a half-open range
/// of `usize`: a number of the range. It panics on an empty range, which
/// the precondition leaves out.
#[verifier::external_body]
fn random_in_range(low: usize, high: usize) -> (n: usize)
    requires
        low < high,
    ensures
        low <= n < high,
{
    rand::Rng::gen_range(&mut rand::thread_rng(), low..high)
}

/// `Alphanumeric`'s `sample_string` on the generator of the thread: `len`
/// characters, each an ASCII letter or digit.
#[verifier::external_body]
fn random_alphanumeric(len: usize) -> (s: String)
    ensures
        s@.len() == len,
        forall|i: int| 0 <= i < len ==> is_alphanumeric(#[trigger] s@[i]),
{
    rand::distributions::DistString::sample_string(
        &rand::distributions::Alphanumeric,
        &mut rand::thread_rng(),
        len,
    )
}

/// `Utc::now` with `timestamp_micros`: the time of the clock, of which
/// nothing is claimed.
#[verifier::external_body]
fn clock_now() -> (now: i64) {
    chrono::Utc::now().timestamp_micros()
}

/// The time of the clock.
pub fn now() -> (now: i64) {
    clock_now()
}

/// The token made of the identifier `id` and the text `suffix`.
pub fn token_of(id: u128, suffix: &str) -> (token: String)
    ensures
        token@ == hyphenated(id) + suffix@,
{
    id_text(id).concat(suffix)
}

/// A new random token.
pub fn gen_token() -> (token: String)
    ensures
        well_shaped_token(token@),
{
    let token_length = random_in_range(200, 300);
    let id = new_id();
    let suffix = random_alphanumeric(token_length);
    let token = token_of(id, suffix.as_str());
    proof {
        assert(token@.subrange(0, 36) =~= hyphenated(id));
        assert forall|i: int| 36 <= i < token@.len() implies is_alphanumeric(
            #[trigger] token@[i],
        ) by {
            assert(token@[i] == suffix@[i - 36]);
        }
    }
    token
}

impl Passtoken {
    /// The credential of the role `role` with the token `token`, issued at
    /// the time `now` for `limit` days.
    pub fn mint(role: Role, limit: usize, token: String, now: i64) -> (passtoken: Passtoken)
        ensures
            passtoken@ == (PasstokenView {
                token: token@,
                role,
                created_at: now,
                limit_days: days_of(limit),
            }),
    {
        let low: u64 = (limit as u64) % 0x1_0000_0000;
        let limit_days: i32 = if low < 0x8000_0000 {
            low as i32
        } else {
            (low as i64 - 0x1_0000_0000) as i32
        };
        Passtoken { token, role, created_at: now, limit_days }
    }

    /// A new credential of the role `role`, issued now for `limit` days,
    /// with a new random token.
    pub fn new(role: Role, limit: usize) -> (passtoken: Passtoken)
        ensures
            passtoken.role == role,
            passtoken.limit_days == days_of(limit),
            well_shaped_token(passtoken.token@),
    {
        let now = now();
        let token = gen_token();
        Passtoken::mint(role, limit, token, now)
    }

    /// Whether the credential is valid at the time `now`.
    pub fn is_valid_at(&self, now: i64) -> (valid: bool)
        ensures
            valid == self@.valid_at(now),
    {
        (self.created_at as i128) + (self.limit_days as i128) * (MICROS_PER_DAY as i128) > (
        now as i128)
    }

    /// Whether the credential is valid now, by the clock.
    pub fn check_valid(&self) -> (valid: bool)
        ensures
            exists|now: i64| valid == #[trigger] self@.valid_at(now),
    {
        let now = now();
        let valid = self.is_valid_at(now);
        assert(valid == self@.valid_at(now));
        valid
    }
}

/// What is configured for one role, as the settings spell it.
#[derive(Debug, Clone, PartialEq, Eq)]
pub struct RoleSetting {
    /// The secret that must be presented.
    pub pass_key: Option<String>,
    /// The lifetime of a credential in days, as text.
    pub limit_days: Option<String>,
}

/// What is configured for the three roles.
#[derive(Debug, Clone, PartialEq, Eq)]
pub struct PassSettings {
    pub administrator: RoleSetting,
    pub equipment_manager: RoleSetting,
    pub general: RoleSetting,
}

impl PassSettings {
    /// What is configured for `role`.
    pub open spec fn of(self, role: Role) -> RoleSetting {
        match role {
            Role::Administrator => self.administrator,
            Role::EquipmentManager => self.equipment_manager,
            Role::General => self.general,
        }
    }

    /// What is configured for `role`.
    pub fn setting(&self, role: Role) -> (setting: &RoleSetting)
        ensures
            *setting == self.of(role),
    {
        match role {
            Role::Administrator => &self.administrator,
            Role::EquipmentManager => &self.equipment_manager,
            Role::General => &self.general,
        }
    }
}

/// Whether a credential of `role` is owed to the bearer of `key`, and for
/// how many days. The secret and the lifetime must be configured and the
/// lifetime must be a number: a missing or unreadable setting is told by
/// its name, before the secret is looked at. With the settings in order,
/// the key must be the secret.
pub open spec fn issue_decision(
    role: Role,
    key: Seq<char>,
    setting: RoleSetting,
) -> std::result::Result<usize, QrErrorView> {
    match setting.pass_key {
        None => Err(QrErrorView::Environment(role.key_name())),
        Some(pass) => match setting.limit_days {
            None => Err(QrErrorView::Environment(role.days_name())),
            Some(days) => match read_usize(days@) {
                None => Err(QrErrorView::Environment(role.days_name())),
                Some(limit) => if key == pass@ {
                    Ok(limit)
                } else {
                    Err(QrErrorView::Authorized)
                },
            },
        },
    }
}

/// Decides whether a credential of `role` is owed to the bearer of `key`,
/// and for how many days.
pub fn decide_issue(role: Role, key: &str, settings: &PassSettings) -> (res: Result<usize>)
    ensures
        shown(res) == issue_decision(role, key@, settings.of(role)),
{
    let setting = settings.setting(role);
    let pass = match &setting.pass_key {
        None => return Err(QrError::Environment(role.key_setting())),
        Some(pass) => pass,
    };
    let days = match &setting.limit_days {
        None => return Err(QrError::Environment(role.days_setting())),
        Some(days) => days,
    };
    let limit = match parse_usize(days.as_str()) {
        None => return Err(QrError::Environment(role.days_setting())),
        Some(limit) => limit,
    };
    if same_text(key, pass.as_str()) {
        Ok(limit)
    } else {
        Err(QrError::Authorized)
    }
}

/// Issues a credential of `role` to the bearer of `key`, if it is owed:
/// one issued now, with a new random token.
pub fn gen_passtoken(role: Role, key: &str, settings: &PassSettings) -> (res: Result<Passtoken>)
    ensures
        match res {
            Ok(passtoken) => {
                &&& issue_decision(role, key@, settings.of(role)) matches Ok(limit)
                &&& passtoken.role == role
                &&& passtoken.limit_days == days_of(limit)
                &&& well_shaped_token(passtoken.token@)
            },
            Err(e) => issue_decision(role, key@, settings.of(role)) == Err::<usize, QrErrorView>(
                e@,
            ),
        },
{
    match decide_issue(role, key, settings) {
        Ok(limit) => Ok(Passtoken::new(role, limit)),
        Err(e) => Err(e),
    }
}

/// Whether the `i`-th credential has the token `token`.
pub open spec fn token_at(rows: Seq<PasstokenView>, token: Seq<char>, i: int) -> bool {
    0 <= i < rows.len() && rows[i].token == token
}

/// Whether the table holds a credential of the token `token`.
pub open spec fn holds(rows: Seq<PasstokenView>, token: Seq<char>) -> bool {
    exists|i: int| token_at(rows, token, i)
}

/// The place of the credential of the token `token`, where the table
/// holds one.
pub open spec fn place(rows: Seq<PasstokenView>, token: Seq<char>) -> int {
    choose|i: int| token_at(rows, token, i)
}

/// What every credentials table keeps: no two credentials share a token.
pub open spec fn passtokens_wf(rows: Seq<PasstokenView>) -> bool {
    forall|i: int, j: int|
        0 <= i < j < rows.len() ==> (#[trigger] rows[i]).token != (#[trigger] rows[j]).token
}

/// What entering `passtoken` answers: its token must be new.
pub open spec fn store_result(
    rows: Seq<PasstokenView>,
    passtoken: PasstokenView,
) -> std::result::Result<(), QrErrorView> {
    if holds(rows, passtoken.token) {
        Err(QrErrorView::AlreadyExists)
    } else {
        Ok(())
    }
}

/// The table after entering `passtoken`.
pub open spec fn after_store(rows: Seq<PasstokenView>, passtoken: PasstokenView) -> Seq<
    PasstokenView,
> {
    if holds(rows, passtoken.token) {
        rows
    } else {
        rows.push(passtoken)
    }
}

/// What the check of `token` at the time `now` answers, given the
/// credential that is stored under the token: the role that the token is
/// bound to while the credential is valid; that it is unauthorized once
/// the credential has expired; that nothing is found where no credential
/// is stored.
pub open spec fn check_result(
    found: Option<PasstokenView>,
    token: Seq<char>,
    now: i64,
) -> std::result::Result<Role, QrErrorView> {
    match found {
        None => Err(QrErrorView::DatabaseNotFound(token)),
        Some(passtoken) => if passtoken.valid_at(now) {
            Ok(passtoken.role)
        } else {
            Err(QrErrorView::Authorized)
        },
    }
}

/// The credential that the table holds under `token`.
pub open spec fn stored(rows: Seq<PasstokenView>, token: Seq<char>) -> Option<PasstokenView> {
    if holds(rows, token) {
        Some(rows[place(rows, token)])
    } else {
        None
    }
}

/// What the check of `token` at the time `now` answers.
pub open spec fn role_result(
    rows: Seq<PasstokenView>,
    token: Seq<char>,
    now: i64,
) -> std::result::Result<Role, QrErrorView> {
    check_result(stored(rows, token), token, now)
}

/// Checks `token` at the time `now`, given the credential that is stored
/// under it.
pub fn check_passtoken(found: Option<&Passtoken>, token: &str, now: i64) -> (res: Result<Role>)
    ensures
        shown(res) == check_result(
            match found {
                Some(passtoken) => Some(passtoken@),
                None => None,
            },
            token@,
            now,
        ),
{
    match found {
        None => Err(QrError::DatabaseNotFound(token.to_owned())),
        Some(passtoken) => if passtoken.is_valid_at(now) {
            Ok(passtoken.role)
        } else {
            Err(QrError::Authorized)
        },
    }
}

/// The views of a list of credentials.
pub open spec fn passtoken_views(rows: Seq<Passtoken>) -> Seq<PasstokenView> {
    Seq::new(rows.len(), |i: int| rows[i]@)
}

/// In a credentials table, one credential at most has a given token.
pub proof fn passtoken_is_unique(rows: Seq<PasstokenView>, token: Seq<char>, i: int)
    requires
        passtokens_wf(rows),
        token_at(rows, token, i),
    ensures
        holds(rows, token),
        place(rows, token) == i,
{
    let j = place(rows, token);
    assert(token_at(rows, token, j));
    if i < j {
        assert(rows[i].token != rows[j].token);
    }
    if j < i {
        assert(rows[j].token != rows[i].token);
    }
}

/// The credentials table of the registry. Nothing is ever dropped from it.
#[derive(Debug)]
pub struct PasstokenTable {
    rows: Vec<Passtoken>,
}

impl View for PasstokenTable {
    type V = Seq<PasstokenView>;

    closed spec fn view(&self) -> Seq<PasstokenView> {
        passtoken_views(self.rows@)
    }
}

impl PasstokenTable {
    /// Whether the table keeps what every credentials table keeps.
    pub open spec fn wf(&self) -> bool {
        passtokens_wf(self@)
    }

    /// A table without credentials.
    pub fn new() -> (table: PasstokenTable)
        ensures
            table.wf(),
            table@ == Seq::<PasstokenView>::empty(),
    {
        let table = PasstokenTable { rows: Vec::new() };
        assert(table@ =~= Seq::<PasstokenView>::empty());
        table
    }

    /// The number of credentials, valid and expired.
    pub fn len(&self) -> (n: usize)
        ensures
            n == self@.len(),
    {
        self.rows.len()
    }

    /// The place of the credential of the token `token`.
    fn position(&self, token: &str) -> (found: Option<usize>)
        ensures
            match found {
                Some(i) => token_at(self@, token@, i as int),
                None => !holds(self@, token@),
            },
    {
        let mut i: usize = 0;
        while i < self.rows.len()
            invariant
                i <= self.rows.len(),
                forall|j: int| 0 <= j < i ==> !token_at(self@, token@, j),
            decreases self.rows.len() - i,
        {
            if same_text(self.rows[i].token.as_str(), token) {
                return Some(i);
            }
            i += 1;
        }
        None
    }

    /// Whether the table holds a credential of the token `token`.
    pub fn contains(&self, token: &str) -> (held: bool)
        ensures
            held == holds(self@, token@),
    {
        self.position(token).is_some()
    }

    /// Enters `passtoken`, unless its token is taken.
    pub fn insert(&mut self, passtoken: Passtoken) -> (res: Result<()>)
        requires
            old(self).wf(),
        ensures
            final(self).wf(),
            final(self)@ == after_store(old(self)@, passtoken@),
            shown(res) == store_result(old(self)@, passtoken@),
    {
        if self.position(passtoken.token.as_str()).is_some() {
            return Err(QrError::AlreadyExists);
        }
        proof {
            let rows = self@;
            let next = rows.push(passtoken@);
            assert forall|i: int, j: int| 0 <= i < j < next.len() implies (#[trigger] next[i]).token
                != (#[trigger] next[j]).token by {
                if j == rows.len() {
                    assert(!token_at(rows, passtoken.token@, i));
                }
            }
            assert(passtoken_views(self.rows@.push(passtoken)) =~= next);
        }
        self.rows.push(passtoken);
        Ok(())
    }

    /// Checks `token` at the time `now`.
    pub fn role_at(&self, token: &str, now: i64) -> (res: Result<Role>)
        requires
            self.wf(),
        ensures
            shown(res) == role_result(self@, token@, now),
    {
        match self.position(token) {
            None => check_passtoken(None, token, now),
            Some(i) => {
                proof {
                    passtoken_is_unique(self@, token@, i as int);
                }
                check_passtoken(Some(&self.rows[i]), token, now)
            },
        }
    }
}

/// Enters the credential `passtoken`, under its token. The token must be
/// new.
pub fn insert_passtoken(conn: &mut Database, passtoken: Passtoken) -> (res: Result<()>)
    requires
        old(conn).wf(),
    ensures
        final(conn).wf(),
        final(conn)@ == old(conn)@.after_insert_passtoken(passtoken@),
        shown(res) == old(conn)@.insert_passtoken_result(passtoken@),
{
    if !conn.online {
        return Err(QrError::DatabaseAdd("passtoken".to_owned()));
    }
    conn.passtoken.insert(passtoken)
}

/// Checks `token` at the time `now`: the role that it is bound to, while
/// the credential is valid.
pub fn get_role_at(conn: &Database, token: &str, now: i64) -> (res: Result<Role>)
    requires
        conn.wf(),
    ensures
        shown(res) == conn@.role_at(token@, now),
{
    if !conn.online {
        return Err(QrError::DatabaseGet("passtoken".to_owned()));
    }
    conn.passtoken.role_at(token, now)
}

/// Checks `token` now, by the clock.
pub fn get_role(conn: &Database, token: &str) -> (res: Result<Role>)
    requires
        conn.wf(),
    ensures
        exists|now: i64| shown(res) == #[trigger] conn@.role_at(token@, now),
{
    let now = now();
    let res = get_role_at(conn, token, now);
    assert(shown(res) == conn@.role_at(token@, now));
    res
}

} // verus!
