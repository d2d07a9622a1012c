//! The operator dashboard: which accounts are operators, test accounts or
//! admins, the SQL predicates that keep them out of user statistics, the
//! per-user row and the operator totals, and the dashboard's records.

use vstd::prelude::*;

use crate::markdown::string_views;
use crate::steps::split_on;
use crate::text::{chars_of, lowercase, owned, starts_with, string_of, to_lowercase_vec, trim, trim_vec, views};

verus! {

// ---------------------------------------------------------------------------
// Account classes
// ---------------------------------------------------------------------------

/// The deployment operators' usernames (lowercase).
pub open spec fn operator_names() -> Seq<Seq<char>> {
    seq!["michael"@, "1136333527"@]
}

/// Prefixes of automated test accounts.
pub open spec fn test_prefixes() -> Seq<Seq<char>> {
    seq!["e2e-"@, "step3smoke"@, "deploy-smoke"@, "smoke_test"@, "smoke-test"@, "smoketest"@]
}

/// Whether a normalised (trimmed, lowercased) username is an operator's.
pub open spec fn is_operator_name(n: Seq<char>) -> bool {
    operator_names().contains(n)
}

/// Whether a normalised username is a test account's.
pub open spec fn is_test_name(n: Seq<char>) -> bool {
    exists|i: int| 0 <= i < 6 && starts_with(n, #[trigger] test_prefixes()[i])
}

/// Whether a normalised username is one of the operators'.
pub fn is_operator_name_exec(n: &str) -> (r: bool)
    ensures
        r == is_operator_name(n@),
{
    let a = crate::text::str_eq(n, "michael");
    let b = crate::text::str_eq(n, "1136333527");
    proof {
        if n@ == "michael"@ {
            assert(operator_names()[0] == n@);
        }
        if n@ == "1136333527"@ {
            assert(operator_names()[1] == n@);
        }
        if operator_names().contains(n@) {
            let k = choose|k: int| 0 <= k < 2 && operator_names()[k] == n@;
            assert(k == 0 || k == 1);
        }
    }
    a || b
}

/// Whether a normalised username starts with a test-account prefix.
pub fn is_test_name_exec(n: &str) -> (r: bool)
    ensures
        r == is_test_name(n@),
{
    let c = chars_of(n);
    let ps: Vec<&str> = vec!["e2e-", "step3smoke", "deploy-smoke", "smoke_test", "smoke-test", "smoketest"];
    assert(crate::markdown::str_views(ps@) =~= test_prefixes());
    let mut i: usize = 0;
    while i < ps.len()
        invariant
            i <= 6,
            ps@.len() == 6,
            c@ == n@,
            crate::markdown::str_views(ps@) == test_prefixes(),
            forall|j: int| 0 <= j < i ==> !starts_with(n@, #[trigger] test_prefixes()[j]),
        decreases ps.len() - i,
    {
        assert(test_prefixes()[i as int] == ps@[i as int]@);
        if crate::text::starts_with_str(&c, ps[i]) {
            return true;
        }
        i = i + 1;
    }
    false
}

/// A username as compared: trimmed, lowercased (`str::to_lowercase`).
pub fn normalize_username(username: &str) -> (r: String)
    ensures
        r@ == lowercase(trim(username@)),
{
    string_of(&to_lowercase_vec(&trim_vec(&chars_of(username))))
}

/// Whether a username is one of the deployment operators'.
pub fn is_operator_username(username: &str) -> (r: bool)
    ensures
        r == is_operator_name(lowercase(trim(username@))),
{
    is_operator_name_exec(normalize_username(username).as_str())
}

/// Whether a username is an automated test account's.
pub fn is_test_username(username: &str) -> (r: bool)
    ensures
        r == is_test_name(lowercase(trim(username@))),
{
    is_test_name_exec(normalize_username(username).as_str())
}

// ---------------------------------------------------------------------------
// SQL predicates
// ---------------------------------------------------------------------------

/// `LOWER(expr) IN (operators)`.
pub open spec fn operator_predicate(e: Seq<char>) -> Seq<char> {
    "LOWER("@ + e + ") IN ('michael', '1136333527')"@
}

/// Test-account GLOBs on `LOWER(expr)`.
pub open spec fn test_predicate(e: Seq<char>) -> Seq<char> {
    let l = "LOWER("@ + e + ")"@;
    "("@ + l + " GLOB 'e2e-*' OR "@ + l + " GLOB 'step3smoke*' OR "@ + l + " GLOB 'deploy-smoke*' OR "@
        + l + " GLOB 'smoke_test*' OR "@ + l + " GLOB 'smoke-test*' OR "@ + l + " GLOB 'smoketest*')"@
}

pub open spec fn excluded_predicate(e: Seq<char>) -> Seq<char> {
    "("@ + operator_predicate(e) + " OR "@ + test_predicate(e) + ")"@
}

/// SQL: the username expression is an operator's.
pub fn operator_username_predicate(username_expr: &str) -> (r: String)
    ensures
        r@ == operator_predicate(username_expr@),
{
    let mut s = owned("LOWER(");
    s.append(username_expr);
    s.append(") IN ('michael', '1136333527')");
    s
}

/// SQL: the username expression is a test account's.
pub fn test_username_predicate(username_expr: &str) -> (r: String)
    ensures
        r@ == test_predicate(username_expr@),
{
    let mut l = owned("LOWER(");
    l.append(username_expr);
    l.append(")");
    let mut s = owned("(");
    s.append(l.as_str());
    s.append(" GLOB 'e2e-*' OR ");
    s.append(l.as_str());
    s.append(" GLOB 'step3smoke*' OR ");
    s.append(l.as_str());
    s.append(" GLOB 'deploy-smoke*' OR ");
    s.append(l.as_str());
    s.append(" GLOB 'smoke_test*' OR ");
    s.append(l.as_str());
    s.append(" GLOB 'smoke-test*' OR ");
    s.append(l.as_str());
    s.append(" GLOB 'smoketest*')");
    s
}

/// SQL: the username expression is an operator's or a test account's.
pub fn excluded_username_predicate(username_expr: &str) -> (r: String)
    ensures
        r@ == excluded_predicate(username_expr@),
{
    let mut s = owned("(");
    s.append(operator_username_predicate(username_expr).as_str());
    s.append(" OR ");
    s.append(test_username_predicate(username_expr).as_str());
    s.append(")");
    s
}

/// SQL: the username expression is a real user's.
pub fn real_username_predicate(username_expr: &str) -> (r: String)
    ensures
        r@ == "NOT "@ + excluded_predicate(username_expr@),
{
    let mut s = owned("NOT ");
    s.append(excluded_username_predicate(username_expr).as_str());
    s
}

/// SQL: the user-id expression is a real user's.
pub fn real_user_id_predicate(user_id_expr: &str) -> (r: String)
    ensures
        r@ == user_id_expr@ + " NOT IN (SELECT id FROM users WHERE "@ + excluded_predicate("username"@)
            + ")"@,
{
    let mut s = owned(user_id_expr);
    s.append(" NOT IN (SELECT id FROM users WHERE ");
    s.append(excluded_username_predicate("username").as_str());
    s.append(")");
    s
}

// ---------------------------------------------------------------------------
// Admin allowlist
// ---------------------------------------------------------------------------

/// The normalised entries of a comma-separated list (`lowered[i]` is the
/// lowercase of the `i`-th trimmed piece), empty ones dropped.
pub open spec fn list_entries(lowered: Seq<Seq<char>>, n: int) -> Seq<Seq<char>>
    decreases n,
{
    if n <= 0 || n > lowered.len() {
        Seq::empty()
    } else if lowered[n - 1].len() == 0 {
        list_entries(lowered, n - 1)
    } else {
        list_entries(lowered, n - 1).push(lowered[n - 1])
    }
}

/// `extra` appended to `base`, skipping names already present.
pub open spec fn merged(base: Seq<Seq<char>>, extra: Seq<Seq<char>>, n: int) -> Seq<Seq<char>>
    decreases n,
{
    if n <= 0 || n > extra.len() {
        base
    } else {
        let m = merged(base, extra, n - 1);
        if m.contains(extra[n - 1]) {
            m
        } else {
            m.push(extra[n - 1])
        }
    }
}

/// The lowercase of each trimmed comma-separated piece of a list.
pub open spec fn lowered_pieces(list: Seq<char>) -> Seq<Seq<char>> {
    split_on(list, ","@).map_values(|p: Seq<char>| lowercase(trim(p)))
}

/// The admin allowlist: the primary list's entries, then the backup list's
/// entries not already in it.
pub open spec fn admin_list(primary: Seq<char>, backup: Seq<char>) -> Seq<Seq<char>> {
    let a = list_entries(lowered_pieces(primary), lowered_pieces(primary).len() as int);
    let b = list_entries(lowered_pieces(backup), lowered_pieces(backup).len() as int);
    merged(a, b, b.len() as int)
}

fn list_entries_exec(list: &str) -> (r: Vec<String>)
    ensures
        string_views(r@) == list_entries(lowered_pieces(list@), lowered_pieces(list@).len() as int),
{
    proof {
        reveal_strlit(",");
    }
    let pieces = crate::steps::split_on_exec(&chars_of(list), ",");
    let ghost lp = lowered_pieces(list@);
    let mut out: Vec<String> = Vec::new();
    let mut i: usize = 0;
    while i < pieces.len()
        invariant
            i <= pieces@.len(),
            views(pieces@) == split_on(list@, ","@),
            lp == lowered_pieces(list@),
            lp.len() == pieces@.len(),
            string_views(out@) == list_entries(lp, i as int),
        decreases pieces.len() - i,
    {
        assert(views(pieces@)[i as int] == pieces@[i as int]@);
        let e = string_of(&to_lowercase_vec(&trim_vec(&pieces[i])));
        assert(lp[i as int] == e@);
        if !e.as_str().is_empty() {
            let ghost before = out@;
            out.push(e);
            proof {
                assert(string_views(out@) =~= string_views(before).push(lp[i as int]));
            }
        }
        i = i + 1;
    }
    out
}

fn contains_name(v: &Vec<String>, name: &String) -> (r: bool)
    ensures
        r == string_views(v@).contains(name@),
{
    let mut i: usize = 0;
    while i < v.len()
        invariant
            i <= v@.len(),
            forall|j: int| 0 <= j < i ==> string_views(v@)[j] != name@,
        decreases v.len() - i,
    {
        if v[i] == *name {
            assert(string_views(v@)[i as int] == name@);
            return true;
        }
        i = i + 1;
    }
    false
}

/// The admin allowlist from the primary and backup lists (see
/// `admin_list`); the caller reads both from the environment.
pub fn admin_usernames_from(primary: &str, backup: &str) -> (r: Vec<String>)
    ensures
        string_views(r@) == admin_list(primary@, backup@),
{
    let mut admins = list_entries_exec(primary);
    let extra = list_entries_exec(backup);
    let ghost base = string_views(admins@);
    let mut i: usize = 0;
    while i < extra.len()
        invariant
            i <= extra@.len(),
            string_views(admins@) == merged(base, string_views(extra@), i as int),
        decreases extra.len() - i,
    {
        assert(string_views(extra@)[i as int] == extra@[i as int]@);
        if !contains_name(&admins, &extra[i]) {
            let ghost before = admins@;
            admins.push(extra[i].clone());
            proof {
                assert(string_views(admins@) =~= string_views(before).push(extra@[i as int]@));
            }
        }
        i = i + 1;
    }
    admins
}

// ---------------------------------------------------------------------------
// Per-user rows
// ---------------------------------------------------------------------------

/// A user's row on the dashboard.
pub struct UserRow {
    pub user_id: String,
    pub username: String,
    pub created_at: String,
    pub last_seen: Option<String>,
    pub is_admin: bool,
    pub is_operator: bool,
    pub is_test_account: bool,
    pub events_total: i64,
    pub sessions_started: i64,
    pub sessions_completed: i64,
    pub last_step_reached: Option<i64>,
    pub total_time_ms: i64,
    pub feedback_count: i64,
    pub last_browser: Option<String>,
    pub last_os: Option<String>,
    pub is_wechat: bool,
}

/// What the event and feedback tables say of one user.
pub struct UserActivity {
    pub last_seen: Option<String>,
    pub events_total: i64,
    pub sessions_started: i64,
    pub sessions_completed: i64,
    pub last_step_reached: Option<i64>,
    pub total_time_ms: i64,
    pub feedback_count: i64,
    pub last_browser: Option<String>,
    pub last_os: Option<String>,
    /// The latest session's `is_wechat` flag, when recorded.
    pub wechat_flag: Option<i64>,
}

/// A user's dashboard row: the account, its activity, and whether it is an
/// admin (its lowercased name is on the allowlist), an operator or a test
/// account; a WeChat flag counts when present and not zero.
pub fn make_user_row(
    user_id: String,
    username: String,
    created_at: String,
    activity: UserActivity,
    admins: &Vec<String>,
) -> (r: UserRow)
    ensures
        r.user_id == user_id && r.username == username && r.created_at == created_at,
        r.last_seen == activity.last_seen,
        r.is_admin == string_views(admins@).contains(lowercase(username@)),
        r.is_operator == is_operator_name(lowercase(trim(username@))),
        r.is_test_account == is_test_name(lowercase(trim(username@))),
        r.events_total == activity.events_total,
        r.sessions_started == activity.sessions_started,
        r.sessions_completed == activity.sessions_completed,
        r.last_step_reached == activity.last_step_reached,
        r.total_time_ms == activity.total_time_ms,
        r.feedback_count == activity.feedback_count,
        r.last_browser == activity.last_browser,
        r.last_os == activity.last_os,
        r.is_wechat == (activity.wechat_flag matches Some(w) && w != 0),
{
    let lower = string_of(&to_lowercase_vec(&chars_of(username.as_str())));
    let is_admin = contains_name(admins, &lower);
    let is_operator = is_operator_username(username.as_str());
    let is_test_account = is_test_username(username.as_str());
    let is_wechat = match activity.wechat_flag {
        Some(w) => w != 0,
        None => false,
    };
    UserRow {
        user_id,
        username,
        created_at,
        last_seen: activity.last_seen,
        is_admin,
        is_operator,
        is_test_account,
        events_total: activity.events_total,
        sessions_started: activity.sessions_started,
        sessions_completed: activity.sessions_completed,
        last_step_reached: activity.last_step_reached,
        total_time_ms: activity.total_time_ms,
        feedback_count: activity.feedback_count,
        last_browser: activity.last_browser,
        last_os: activity.last_os,
        is_wechat,
    }
}

/// The median of ascending step durations: the element at half the length
/// (the upper median); none for no durations.
pub fn median_duration(durations: &[i64]) -> (r: Option<i64>)
    ensures
        durations@.len() == 0 ==> r is None,
        durations@.len() > 0 ==> r == Some(durations@[(durations@.len() / 2) as int]),
{
    if durations.len() == 0 {
        None
    } else {
        Some(durations[durations.len() / 2])
    }
}

// ---------------------------------------------------------------------------
// Operator totals
// ---------------------------------------------------------------------------

/// Totals over the operators' accounts.
pub struct OperatorTotals {
    pub accounts: i64,
    pub events_total: i64,
    pub sessions_started: i64,
    pub sessions_completed: i64,
    pub feedback_count: i64,
    pub total_time_ms: i64,
    pub last_seen: Option<String>,
}

/// The operators' accounts and their totals.
pub struct OperatorSummary {
    pub accounts: Vec<UserRow>,
    pub totals: OperatorTotals,
    pub note: String,
}

/// Counter `k` of a row: events, sessions started, sessions completed,
/// feedback, total time.
pub open spec fn counter(u: UserRow, k: int) -> int {
    if k == 0 {
        u.events_total as int
    } else if k == 1 {
        u.sessions_started as int
    } else if k == 2 {
        u.sessions_completed as int
    } else if k == 3 {
        u.feedback_count as int
    } else {
        u.total_time_ms as int
    }
}

/// Sum of counter `k` over the first `n` rows.
pub open spec fn counter_sum(rows: Seq<UserRow>, k: int, n: int) -> int
    decreases n,
{
    if n <= 0 || n > rows.len() {
        0
    } else {
        counter_sum(rows, k, n - 1) + counter(rows[n - 1], k)
    }
}

/// Every running sum of every counter fits in an `i64`.
pub open spec fn sums_fit(rows: Seq<UserRow>) -> bool {
    forall|k: int, n: int|
        0 <= k < 5 && 0 <= n <= rows.len() ==> i64::MIN <= #[trigger] counter_sum(rows, k, n) <= i64::MAX
}

/// `a < b` in the order of `String`s (code point by code point, a prefix
/// first).
pub open spec fn text_less(a: Seq<char>, b: Seq<char>) -> bool
    decreases a.len(),
{
    if b.len() == 0 {
        false
    } else if a.len() == 0 {
        true
    } else if a[0] != b[0] {
        a[0] < b[0]
    } else {
        text_less(a.skip(1), b.skip(1))
    }
}

/// `text_less` is transitive.
pub proof fn lemma_text_less_transitive(a: Seq<char>, b: Seq<char>, c: Seq<char>)
    requires
        text_less(a, b),
        text_less(b, c),
    ensures
        text_less(a, c),
    decreases a.len(),
{
    if a.len() > 0 && a[0] == b[0] && b[0] == c[0] {
        lemma_text_less_transitive(a.skip(1), b.skip(1), c.skip(1));
    }
}

/// No text is less than itself.
pub proof fn lemma_text_less_irreflexive(a: Seq<char>)
    ensures
        !text_less(a, a),
    decreases a.len(),
{
    if a.len() > 0 {
        lemma_text_less_irreflexive(a.skip(1));
    }
}

/// The latest of the known last-seen timestamps among the first `n` rows.
pub open spec fn latest_seen(rows: Seq<UserRow>, n: int) -> Option<Seq<char>>
    decreases n,
{
    if n <= 0 || n > rows.len() {
        None
    } else {
        let prev = latest_seen(rows, n - 1);
        match rows[n - 1].last_seen {
            None => prev,
            Some(s) => match prev {
                None => Some(s@),
                Some(p) => if text_less(s@, p) {
                    Some(p)
                } else {
                    Some(s@)
                },
            },
        }
    }
}

pub(crate) fn text_less_exec(a: &str, b: &str) -> (r: bool)
    ensures
        r == text_less(a@, b@),
{
    let x = chars_of(a);
    let y = chars_of(b);
    let mut i: usize = 0;
    assert(a@.skip(0) =~= a@);
    assert(b@.skip(0) =~= b@);
    while i < x.len() && i < y.len() && x[i] == y[i]
        invariant
            i <= x@.len(),
            i <= y@.len(),
            x@ == a@,
            y@ == b@,
            text_less(a@.skip(i as int), b@.skip(i as int)) == text_less(a@, b@),
        decreases x.len() - i,
    {
        proof {
            let s = a@.skip(i as int);
            let t = b@.skip(i as int);
            assert(s.skip(1) =~= a@.skip(i + 1));
            assert(t.skip(1) =~= b@.skip(i + 1));
        }
        i = i + 1;
    }
    if i == y.len() {
        return false;
    }
    if i == x.len() {
        return true;
    }
    x[i] < y[i]
}

/// The operators' totals: the number of accounts, each counter summed, and
/// the latest last-seen time.
pub fn operator_totals(accounts: &Vec<UserRow>) -> (r: OperatorTotals)
    requires
        accounts@.len() <= i64::MAX,
        sums_fit(accounts@),
    ensures
        r.accounts == accounts@.len(),
        r.events_total == counter_sum(accounts@, 0, accounts@.len() as int),
        r.sessions_started == counter_sum(accounts@, 1, accounts@.len() as int),
        r.sessions_completed == counter_sum(accounts@, 2, accounts@.len() as int),
        r.feedback_count == counter_sum(accounts@, 3, accounts@.len() as int),
        r.total_time_ms == counter_sum(accounts@, 4, accounts@.len() as int),
        crate::api::opt_view(r.last_seen) == latest_seen(accounts@, accounts@.len() as int),
{
    let mut e: i64 = 0;
    let mut s1: i64 = 0;
    let mut s2: i64 = 0;
    let mut f: i64 = 0;
    let mut t: i64 = 0;
    let mut last: Option<String> = None;
    let mut i: usize = 0;
    while i < accounts.len()
        invariant
            i <= accounts@.len(),
            sums_fit(accounts@),
            e == counter_sum(accounts@, 0, i as int),
            s1 == counter_sum(accounts@, 1, i as int),
            s2 == counter_sum(accounts@, 2, i as int),
            f == counter_sum(accounts@, 3, i as int),
            t == counter_sum(accounts@, 4, i as int),
            crate::api::opt_view(last) == latest_seen(accounts@, i as int),
        decreases accounts.len() - i,
    {
        let u = &accounts[i];
        assert(i64::MIN <= counter_sum(accounts@, 0, i + 1) <= i64::MAX);
        assert(i64::MIN <= counter_sum(accounts@, 1, i + 1) <= i64::MAX);
        assert(i64::MIN <= counter_sum(accounts@, 2, i + 1) <= i64::MAX);
        assert(i64::MIN <= counter_sum(accounts@, 3, i + 1) <= i64::MAX);
        assert(i64::MIN <= counter_sum(accounts@, 4, i + 1) <= i64::MAX);
        e = e + u.events_total;
        s1 = s1 + u.sessions_started;
        s2 = s2 + u.sessions_completed;
        f = f + u.feedback_count;
        t = t + u.total_time_ms;
        match &u.last_seen {
            None => {},
            Some(s) => {
                let keep_prev = match &last {
                    None => false,
                    Some(p) => text_less_exec(s.as_str(), p.as_str()),
                };
                if !keep_prev {
                    last = Some(s.clone());
                }
            },
        }
        i = i + 1;
    }
    OperatorTotals {
        accounts: accounts.len() as i64,
        events_total: e,
        sessions_started: s1,
        sessions_completed: s2,
        feedback_count: f,
        total_time_ms: t,
        last_seen: last,
    }
}

/// The note shown with the operators' summary.
pub fn operator_note() -> (r: String)
    ensures
        r@ == "Michael / 1136333527 单独统计，不计入运营用户数据"@,
{
    owned("Michael / 1136333527 单独统计，不计入运营用户数据")
}

fn counter_exec(u: &UserRow, k: u8) -> (r: i64)
    requires
        k < 5,
    ensures
        r == counter(*u, k as int),
{
    if k == 0 {
        u.events_total
    } else if k == 1 {
        u.sessions_started
    } else if k == 2 {
        u.sessions_completed
    } else if k == 3 {
        u.feedback_count
    } else {
        u.total_time_ms
    }
}

/// Whether every running sum of counter `k` fits in an `i64`.
fn counter_fits(accounts: &Vec<UserRow>, k: u8) -> (r: bool)
    requires
        k < 5,
    ensures
        r == forall|n: int|
            0 <= n <= accounts@.len() ==> i64::MIN <= #[trigger] counter_sum(accounts@, k as int, n)
                <= i64::MAX,
{
    let mut sum: i64 = 0;
    let mut i: usize = 0;
    while i < accounts.len()
        invariant
            k < 5,
            i <= accounts@.len(),
            sum == counter_sum(accounts@, k as int, i as int),
            forall|n: int|
                0 <= n <= i ==> i64::MIN <= #[trigger] counter_sum(accounts@, k as int, n) <= i64::MAX,
        decreases accounts.len() - i,
    {
        let c = counter_exec(&accounts[i], k);
        match sum.checked_add(c) {
            Some(x) => {
                sum = x;
            },
            None => {
                assert(!(i64::MIN <= counter_sum(accounts@, k as int, i + 1) <= i64::MAX));
                return false;
            },
        }
        i = i + 1;
    }
    true
}

/// The operators' summary of their account rows; none when a counter's
/// total does not fit in an `i64`.
pub fn operator_summary_of(accounts: Vec<UserRow>) -> (r: Option<OperatorSummary>)
    ensures
        (accounts@.len() <= i64::MAX && sums_fit(accounts@)) <==> r is Some,
        r matches Some(sm) ==> sm.accounts@ == accounts@ && sm.note@ == "Michael / 1136333527 单独统计，不计入运营用户数据"@
            && sm.totals.accounts == accounts@.len() && sm.totals.events_total == counter_sum(
            accounts@,
            0,
            accounts@.len() as int,
        ) && sm.totals.sessions_started == counter_sum(accounts@, 1, accounts@.len() as int)
            && sm.totals.sessions_completed == counter_sum(accounts@, 2, accounts@.len() as int)
            && sm.totals.feedback_count == counter_sum(accounts@, 3, accounts@.len() as int)
            && sm.totals.total_time_ms == counter_sum(accounts@, 4, accounts@.len() as int)
            && crate::api::opt_view(sm.totals.last_seen) == latest_seen(
            accounts@,
            accounts@.len() as int,
        ),
{
    if accounts.len() as u64 > i64::MAX as u64 {
        return None;
    }
    let mut k: u8 = 0;
    while k < 5
        invariant
            k <= 5,
            forall|kk: int, n: int|
                0 <= kk < k && 0 <= n <= accounts@.len() ==> i64::MIN <= #[trigger] counter_sum(
                    accounts@,
                    kk,
                    n,
                ) <= i64::MAX,
        decreases 5 - k,
    {
        if !counter_fits(&accounts, k) {
            return None;
        }
        k = k + 1;
    }
    let totals = operator_totals(&accounts);
    Some(OperatorSummary { accounts, totals, note: operator_note() })
}

// ---------------------------------------------------------------------------
// The user list's order
// ---------------------------------------------------------------------------

/// `a` sorts after `b` in the user list: seen less recently, an unseen user
/// after every seen one.
pub open spec fn seen_less(a: Option<String>, b: Option<String>) -> bool {
    match (a, b) {
        (None, Some(_)) => true,
        (Some(x), Some(y)) => text_less(x@, y@),
        _ => false,
    }
}

fn seen_less_exec(a: &Option<String>, b: &Option<String>) -> (r: bool)
    ensures
        r == seen_less(*a, *b),
{
    match (a, b) {
        (None, Some(_)) => true,
        (Some(x), Some(y)) => text_less_exec(x.as_str(), y.as_str()),
        _ => false,
    }
}

proof fn lemma_seen_less_transitive(a: Option<String>, b: Option<String>, c: Option<String>)
    requires
        seen_less(a, b),
        seen_less(b, c),
    ensures
        seen_less(a, c),
{
    if a is Some {
        lemma_text_less_transitive(a->0@, b->0@, c->0@);
    }
}

proof fn lemma_seen_less_irreflexive(a: Option<String>)
    ensures
        !seen_less(a, a),
{
    if a is Some {
        lemma_text_less_irreflexive(a->0@);
    }
}

/// `order` lists each index of `seen` once, most recently seen first and
/// the never-seen last.
pub open spec fn is_recent_first_order(order: Seq<usize>, seen: Seq<Option<String>>) -> bool {
    &&& order.len() == seen.len()
    &&& forall|p: int| 0 <= p < order.len() ==> order[p] < seen.len()
    &&& forall|p: int, q: int| 0 <= p < q < order.len() ==> order[p] != order[q]
    &&& forall|p: int, q: int|
        0 <= p < q < order.len() ==> !seen_less(seen[order[p] as int], seen[order[q] as int])
}

/// The last-seen time of a user as a plain value.
pub open spec fn seen_view(s: Option<String>) -> Option<Seq<char>> {
    match s {
        Some(x) => Some(x@),
        None => None,
    }
}

/// Users with the same last-seen time keep their order in `seen`.
pub open spec fn keeps_ties(order: Seq<usize>, seen: Seq<Option<String>>) -> bool {
    forall|p: int, q: int|
        0 <= p < q < order.len() && seen_view(seen[order[p] as int]) == seen_view(seen[order[q] as int])
            ==> order[p] < order[q]
}

/// The order of the user list by last-seen time (see
/// `is_recent_first_order`); users seen alike keep their order.
pub fn recent_first_order(seen: &Vec<Option<String>>) -> (r: Vec<usize>)
    ensures
        is_recent_first_order(r@, seen@),
        keeps_ties(r@, seen@),
{
    let mut out: Vec<usize> = Vec::new();
    let mut i: usize = 0;
    while i < seen.len()
        invariant
            i <= seen@.len(),
            out@.len() == i,
            forall|p: int| 0 <= p < out@.len() ==> out@[p] < i,
            forall|p: int, q: int| 0 <= p < q < out@.len() ==> out@[p] != out@[q],
            forall|p: int, q: int|
                0 <= p < q < out@.len() ==> !seen_less(seen@[out@[p] as int], seen@[out@[q] as int]),
            keeps_ties(out@, seen@),
        decreases seen.len() - i,
    {
        let mut pos: usize = 0;
        while pos < out.len() && !seen_less_exec(&seen[out[pos]], &seen[i])
            invariant
                pos <= out@.len(),
                i < seen@.len(),
                forall|p: int| 0 <= p < out@.len() ==> out@[p] < i,
                forall|q: int| 0 <= q < pos ==> !seen_less(seen@[out@[q] as int], seen@[i as int]),
            decreases out.len() - pos,
        {
            pos = pos + 1;
        }
        let ghost before = out@;
        let ghost e = seen@[i as int];
        out.insert(pos, i);
        proof {
            before.insert_ensures(pos as int, i);
            let now = out@;
            assert forall|p: int| 0 <= p < now.len() implies now[p] < i + 1 by {
                if p < pos {
                    assert(now[p] == before[p]);
                } else if p > pos {
                    assert(now[p] == before[p - 1]);
                }
            }
            assert forall|p: int, q: int| 0 <= p < q < now.len() implies now[p] != now[q] by {
                if p < pos && q < pos {
                    assert(now[p] == before[p] && now[q] == before[q]);
                } else if p < pos && q == pos {
                    assert(now[p] == before[p]);
                } else if p < pos {
                    assert(now[p] == before[p] && now[q] == before[q - 1]);
                } else if p == pos {
                    assert(now[q] == before[q - 1]);
                } else {
                    assert(now[p] == before[p - 1] && now[q] == before[q - 1]);
                }
            }
            assert forall|p: int, q: int| 0 <= p < q < now.len() implies !seen_less(
                seen@[now[p] as int],
                seen@[now[q] as int],
            ) by {
                if p < pos && q < pos {
                    assert(now[p] == before[p] && now[q] == before[q]);
                } else if p < pos && q == pos {
                    assert(now[p] == before[p]);
                } else if p < pos {
                    assert(now[p] == before[p] && now[q] == before[q - 1]);
                } else if p == pos {
                    assert(now[q] == before[q - 1]);
                    let head = seen@[before[pos as int] as int];
                    let tail = seen@[before[q - 1] as int];
                    assert(seen_less(head, e));
                    if seen_less(e, tail) {
                        if q - 1 > pos {
                            lemma_seen_less_transitive(head, e, tail);
                        } else {
                            lemma_seen_less_transitive(head, e, head);
                            lemma_seen_less_irreflexive(head);
                        }
                    }
                } else {
                    assert(now[p] == before[p - 1] && now[q] == before[q - 1]);
                }
            }
            assert forall|p: int, q: int|
                0 <= p < q < now.len() && seen_view(seen@[now[p] as int]) == seen_view(
                    seen@[now[q] as int],
                ) implies now[p] < now[q] by {
                if p < pos && q < pos {
                    assert(now[p] == before[p] && now[q] == before[q]);
                } else if p < pos && q == pos {
                    assert(now[p] == before[p]);
                } else if p < pos {
                    assert(now[p] == before[p] && now[q] == before[q - 1]);
                } else if p == pos {
                    assert(now[q] == before[q - 1]);
                    let head = seen@[before[pos as int] as int];
                    let tail = seen@[before[q - 1] as int];
                    assert(seen_less(head, e));
                    assert(seen_less(head, tail));
                    if q - 1 == pos {
                        lemma_seen_less_irreflexive(head);
                    }
                } else {
                    assert(now[p] == before[p - 1] && now[q] == before[q - 1]);
                }
            }
        }
        i = i + 1;
    }
    out
}

// ---------------------------------------------------------------------------
// Dashboard records
// ---------------------------------------------------------------------------

/// Window of sliding aggregations, in days (30 when absent).
pub struct DaysQuery {
    pub days: Option<i64>,
}

/// One step of the completion funnel.
pub struct FunnelStep {
    pub step: i64,
    pub sessions_entered: i64,
    pub sessions_completed: i64,
    pub median_duration_ms: Option<i64>,
}

/// Sessions per question category.
pub struct CategoryStat {
    pub category: String,
    pub count: i64,
}

/// Sessions by browser, operating system and device class.
///
/// Each list holds every label seen once, with the number of sessions that
/// reported it.
pub struct DeviceBuckets {
    pub browsers: Vec<(String, i64)>,
    pub os: Vec<(String, i64)>,
    pub device_class: Vec<(String, i64)>,
    pub wechat_count: i64,
    pub total: i64,
}

/// Events per client address.
pub struct IpRow {
    pub ip: String,
    pub events: i64,
    pub last_seen: String,
}

/// An admin's reply to a piece of feedback.
pub struct FeedbackReplyRow {
    pub id: i64,
    pub feedback_id: i64,
    pub admin_user_id: String,
    pub admin_username: Option<String>,
    pub body: String,
    pub created_at: String,
    pub notified_at: Option<String>,
}

/// Body of a feedback reply.
pub struct FeedbackReplyIn {
    pub body: String,
}

/// Chat usage over a window.
pub struct ChatOverview {
    pub rooms_created: i64,
    pub rooms_active: i64,
    pub messages_total: i64,
    pub users_active: i64,
    pub persona_replies_total: i64,
    pub window_days: i64,
}

/// How much one advisor is used in chat rooms.
pub struct PersonaUsage {
    pub persona_slug: String,
    /// Rooms that had this advisor at creation.
    pub rooms_with: i64,
    /// Replies this advisor streamed.
    pub replies: i64,
}

/// Rooms revisited after one, three and seven days.
pub struct ChatRetention {
    pub cohort_days: i64,
    pub rooms_created: i64,
    pub returned_d1: i64,
    pub returned_d3: i64,
    pub returned_d7: i64,
}

/// Filters of the incident page.
pub struct IncidentsQuery {
    pub days: Option<u32>,
    pub kind: Option<String>,
    pub step: Option<u8>,
}

/// Incident counts by kind and by step (each label once).
pub struct IncidentsSummary {
    pub by_kind: Vec<(String, u64)>,
    pub by_step: Vec<(String, u64)>,
    pub total: u64,
}

/// The incident page: records and their summary.
pub struct IncidentsResponse {
    pub records: Vec<crate::api::IncidentRecord>,
    pub summary: IncidentsSummary,
}

// ---------------------------------------------------------------------------
// Tallies
// ---------------------------------------------------------------------------

/// How many of the first `n` labels equal `k`.
pub open spec fn occurrences(ls: Seq<Seq<char>>, k: Seq<char>, n: int) -> int
    decreases n,
{
    if n <= 0 || n > ls.len() {
        0
    } else {
        occurrences(ls, k, n - 1) + if ls[n - 1] == k {
            1int
        } else {
            0int
        }
    }
}

/// `t` counts the labels `ls`: each label once, with its number of
/// occurrences, and every label of `ls` present.
pub open spec fn is_tally(t: Seq<(Seq<char>, int)>, ls: Seq<Seq<char>>) -> bool {
    &&& forall|p: int, q: int| 0 <= p < q < t.len() ==> t[p].0 != t[q].0
    &&& forall|p: int| 0 <= p < t.len() ==> t[p].1 == occurrences(ls, t[p].0, ls.len() as int)
    &&& forall|p: int| 0 <= p < t.len() ==> t[p].1 >= 1
    &&& forall|j: int| 0 <= j < ls.len() ==> #[trigger] listed(t, ls[j])
}

/// Whether `l` is one of the labels of `t`.
pub open spec fn listed(t: Seq<(Seq<char>, int)>, l: Seq<char>) -> bool {
    exists|p: int| 0 <= p < t.len() && t[p].0 == l
}

pub open spec fn tally_view(t: Seq<(String, u64)>) -> Seq<(Seq<char>, int)> {
    t.map_values(|e: (String, u64)| (e.0@, e.1 as int))
}

pub open spec fn tally_view_i64(t: Seq<(String, i64)>) -> Seq<(Seq<char>, int)> {
    t.map_values(|e: (String, i64)| (e.0@, e.1 as int))
}

proof fn lemma_occurrences_bounds(ls: Seq<Seq<char>>, k: Seq<char>, n: int)
    requires
        0 <= n <= ls.len(),
    ensures
        0 <= occurrences(ls, k, n) <= n,
        occurrences(ls, k, n) > 0 ==> exists|j: int| 0 <= j < n && ls[j] == k,
    decreases n,
{
    if n > 0 {
        lemma_occurrences_bounds(ls, k, n - 1);
    }
}

/// Counts each distinct label (in order of first appearance).
pub fn tally(labels: &Vec<String>) -> (r: Vec<(String, u64)>)
    ensures
        is_tally(tally_view(r@), string_views(labels@)),
{
    let ghost ls = string_views(labels@);
    let mut keys: Vec<String> = Vec::new();
    let mut counts: Vec<u64> = Vec::new();
    let mut i: usize = 0;
    while i < labels.len()
        invariant
            i <= labels@.len(),
            ls == string_views(labels@),
            keys@.len() == counts@.len(),
            forall|p: int, q: int| 0 <= p < q < keys@.len() ==> keys@[p]@ != keys@[q]@,
            forall|p: int|
                0 <= p < keys@.len() ==> counts@[p] == occurrences(ls, keys@[p]@, i as int),
            forall|j: int|
                #![trigger ls[j]]
                0 <= j < i ==> exists|p: int| #![trigger keys@[p]] 0 <= p < keys@.len() && keys@[p]@ == ls[j],
            forall|p: int| 0 <= p < keys@.len() ==> 1 <= #[trigger] counts@[p] <= i,
        decreases labels.len() - i,
    {
        let x = labels[i].as_str();
        assert(ls[i as int] == x@);
        let ghost old_keys = keys@;
        let ghost old_counts = counts@;
        let mut p: usize = 0;
        let mut found: bool = false;
        while !found && p < keys.len()
            invariant
                keys@ == old_keys,
                p <= keys@.len(),
                forall|q: int| 0 <= q < p ==> keys@[q]@ != x@,
                found ==> p < keys@.len() && keys@[p as int]@ == x@,
            decreases keys.len() - p + if found {
                0int
            } else {
                1int
            },
        {
            if crate::text::str_eq(keys[p].as_str(), x) {
                found = true;
            } else {
                p = p + 1;
            }
        }
        if found {
            let c = counts[p];
            counts.set(p, c + 1);
            assert forall|q: int| 0 <= q < keys@.len() implies counts@[q] == occurrences(
                ls,
                keys@[q]@,
                i + 1,
            ) by {
                if q != p {
                    assert(keys@[q]@ != keys@[p as int]@);
                }
            }
        } else {
            proof {
                lemma_occurrences_bounds(ls, x@, i as int);
                if occurrences(ls, x@, i as int) > 0 {
                    let j = choose|j: int| 0 <= j < i && ls[j] == x@;
                    assert(exists|pp: int| #![trigger old_keys[pp]] 0 <= pp < old_keys.len() && old_keys[pp]@ == ls[j]);
                    let pp = choose|pp: int| 0 <= pp < old_keys.len() && old_keys[pp]@ == ls[j];
                    assert(false);
                }
            }
            keys.push(owned(x));
            counts.push(1);
            assert forall|pa: int, q: int| 0 <= pa < q < keys@.len() implies keys@[pa]@ != keys@[q]@ by {
                if q == keys@.len() - 1 {
                    assert(keys@[pa] == old_keys[pa]);
                } else {
                    assert(keys@[pa] == old_keys[pa]);
                    assert(keys@[q] == old_keys[q]);
                }
            }
        }
        proof {
            assert forall|j: int| #![trigger ls[j]] 0 <= j < i + 1 implies exists|pp: int|
                #![trigger keys@[pp]] 0 <= pp < keys@.len() && keys@[pp]@ == ls[j] by {
                if j == i {
                    if found {
                        assert(keys@[p as int]@ == ls[j]);
                    } else {
                        assert(keys@[keys@.len() - 1]@ == ls[j]);
                    }
                } else {
                    assert(exists|pp: int| #![trigger old_keys[pp]] 0 <= pp < old_keys.len() && old_keys[pp]@ == ls[j]);
                    let pp = choose|pp: int| 0 <= pp < old_keys.len() && old_keys[pp]@ == ls[j];
                    assert(keys@[pp] == old_keys[pp]);
                }
            }
        }
        i = i + 1;
    }
    let ghost kt = Seq::new(keys@.len(), |p: int| (keys@[p]@, counts@[p] as int));
    proof {
        assert(ls.len() == i);
        assert forall|j: int| 0 <= j < ls.len() implies #[trigger] listed(kt, ls[j]) by {
            let pp = choose|pp: int| 0 <= pp < keys@.len() && keys@[pp]@ == ls[j];
            assert(kt[pp].0 == keys@[pp]@);
        }
        assert(is_tally(kt, ls));
    }
    let mut out: Vec<(String, u64)> = Vec::new();
    let mut k: usize = 0;
    while k < keys.len()
        invariant
            k <= keys@.len(),
            keys@.len() == counts@.len(),
            out@.len() == k,
            forall|q: int|
                0 <= q < k ==> (#[trigger] out@[q]).0@ == keys@[q]@ && out@[q].1 == counts@[q],
        decreases keys.len() - k,
    {
        out.push((owned(keys[k].as_str()), counts[k]));
        k = k + 1;
    }
    assert(tally_view(out@) =~= kt);
    out
}

/// How many of the first `n` rows report WeChat.
pub open spec fn wechat_rows(rs: Seq<(String, String, String, Option<i64>)>, n: int) -> int
    decreases n,
{
    if n <= 0 || n > rs.len() {
        0
    } else {
        wechat_rows(rs, n - 1) + match rs[n - 1].3 {
            Some(w) => if w != 0 {
                1int
            } else {
                0int
            },
            None => 0int,
        }
    }
}

/// Column `c` (0 browser, 1 OS, 2 device class) of the session rows.
pub open spec fn device_column(rs: Seq<(String, String, String, Option<i64>)>, c: int) -> Seq<Seq<char>> {
    Seq::new(
        rs.len(),
        |i: int|
            if c == 0 {
                rs[i].0@
            } else if c == 1 {
                rs[i].1@
            } else {
                rs[i].2@
            },
    )
}

fn column(rows: &Vec<(String, String, String, Option<i64>)>, c: u8) -> (r: Vec<String>)
    ensures
        string_views(r@) == device_column(rows@, c as int),
{
    let mut out: Vec<String> = Vec::new();
    let mut i: usize = 0;
    while i < rows.len()
        invariant
            i <= rows@.len(),
            out@.len() == i,
            forall|j: int| 0 <= j < i ==> #[trigger] out@[j]@ == device_column(rows@, c as int)[j],
        decreases rows.len() - i,
    {
        let v = if c == 0 {
            owned(rows[i].0.as_str())
        } else if c == 1 {
            owned(rows[i].1.as_str())
        } else {
            owned(rows[i].2.as_str())
        };
        out.push(v);
        i = i + 1;
    }
    assert(string_views(out@) =~= device_column(rows@, c as int));
    out
}

fn to_i64_counts(t: Vec<(String, u64)>, bound: usize) -> (r: Vec<(String, i64)>)
    requires
        bound <= i64::MAX,
        forall|p: int| 0 <= p < t@.len() ==> t@[p].1 <= bound,
    ensures
        tally_view_i64(r@) == tally_view(t@),
{
    let mut out: Vec<(String, i64)> = Vec::new();
    let mut k: usize = 0;
    while k < t.len()
        invariant
            k <= t@.len(),
            bound <= i64::MAX,
            forall|p: int| 0 <= p < t@.len() ==> t@[p].1 <= bound,
            out@.len() == k,
            forall|q: int|
                0 <= q < k ==> (#[trigger] out@[q]).0@ == t@[q].0@ && out@[q].1 == t@[q].1,
        decreases t.len() - k,
    {
        let c = t[k].1;
        out.push((owned(t[k].0.as_str()), c as i64));
        k = k + 1;
    }
    assert(tally_view_i64(out@) =~= tally_view(t@));
    out
}

/// Buckets session-start rows `(browser, os, device class, is_wechat)`:
/// a tally of each of the three columns, the rows that report WeChat, and
/// their number.
pub fn device_buckets(rows: &Vec<(String, String, String, Option<i64>)>) -> (r: DeviceBuckets)
    requires
        rows@.len() <= i64::MAX,
    ensures
        is_tally(tally_view_i64(r.browsers@), device_column(rows@, 0)),
        is_tally(tally_view_i64(r.os@), device_column(rows@, 1)),
        is_tally(tally_view_i64(r.device_class@), device_column(rows@, 2)),
        r.wechat_count == wechat_rows(rows@, rows@.len() as int),
        r.total == rows@.len(),
{
    let b = tally(&column(rows, 0));
    let o = tally(&column(rows, 1));
    let d = tally(&column(rows, 2));
    proof {
        assert forall|p: int| 0 <= p < b@.len() implies b@[p].1 <= rows@.len() by {
            assert(tally_view(b@)[p].1 == b@[p].1);
            lemma_occurrences_bounds(device_column(rows@, 0), b@[p].0@, rows@.len() as int);
        }
        assert forall|p: int| 0 <= p < o@.len() implies o@[p].1 <= rows@.len() by {
            assert(tally_view(o@)[p].1 == o@[p].1);
            lemma_occurrences_bounds(device_column(rows@, 1), o@[p].0@, rows@.len() as int);
        }
        assert forall|p: int| 0 <= p < d@.len() implies d@[p].1 <= rows@.len() by {
            assert(tally_view(d@)[p].1 == d@[p].1);
            lemma_occurrences_bounds(device_column(rows@, 2), d@[p].0@, rows@.len() as int);
        }
    }
    let mut w: i64 = 0;
    let mut i: usize = 0;
    while i < rows.len()
        invariant
            i <= rows@.len(),
            rows@.len() <= i64::MAX,
            w == wechat_rows(rows@, i as int),
            0 <= w <= i,
        decreases rows.len() - i,
    {
        match rows[i].3 {
            Some(x) => if x != 0 {
                w = w + 1;
            },
            None => {},
        }
        i = i + 1;
    }
    DeviceBuckets {
        browsers: to_i64_counts(b, rows.len()),
        os: to_i64_counts(o, rows.len()),
        device_class: to_i64_counts(d, rows.len()),
        wechat_count: w,
        total: rows.len() as i64,
    }
}

/// The steps of incident records as text.
pub open spec fn incident_steps(rs: Seq<crate::api::IncidentRecord>) -> Seq<Seq<char>> {
    Seq::new(rs.len(), |i: int| crate::text::decimal(rs[i].step as nat))
}

/// The kinds of incident records.
pub open spec fn incident_kinds(rs: Seq<crate::api::IncidentRecord>) -> Seq<Seq<char>> {
    Seq::new(rs.len(), |i: int| rs[i].kind@)
}

/// Counts incident records by kind and by step.
pub fn incident_summary(records: &Vec<crate::api::IncidentRecord>) -> (r: IncidentsSummary)
    ensures
        is_tally(tally_view(r.by_kind@), incident_kinds(records@)),
        is_tally(tally_view(r.by_step@), incident_steps(records@)),
        r.total == records@.len(),
{
    let mut kinds: Vec<String> = Vec::new();
    let mut steps: Vec<String> = Vec::new();
    let mut i: usize = 0;
    while i < records.len()
        invariant
            i <= records@.len(),
            kinds@.len() == i,
            steps@.len() == i,
            forall|j: int| 0 <= j < i ==> #[trigger] kinds@[j]@ == records@[j].kind@,
            forall|j: int|
                0 <= j < i ==> #[trigger] steps@[j]@ == crate::text::decimal(records@[j].step as nat),
        decreases records.len() - i,
    {
        kinds.push(owned(records[i].kind.as_str()));
        steps.push(crate::text::decimal_string(records[i].step as u64));
        i = i + 1;
    }
    assert(string_views(kinds@) =~= incident_kinds(records@));
    assert(string_views(steps@) =~= incident_steps(records@));
    IncidentsSummary { by_kind: tally(&kinds), by_step: tally(&steps), total: records.len() as u64 }
}

// ---------------------------------------------------------------------------
// Advisor usage in chat rooms
// ---------------------------------------------------------------------------

/// The count that the first `n` `(slug, count)` rows give `slug` (the last
/// row for it wins, as when they are collected into a map); 0 when none.
pub open spec fn last_count(rows: Seq<(String, i64)>, slug: Seq<char>, n: int) -> i64
    decreases n,
{
    if n <= 0 || n > rows.len() {
        0
    } else if rows[n - 1].0@ == slug {
        rows[n - 1].1
    } else {
        last_count(rows, slug, n - 1)
    }
}

pub open spec fn row_keys(rows: Seq<(String, i64)>) -> Seq<Seq<char>> {
    Seq::new(rows.len(), |i: int| rows[i].0@)
}

/// Whether some entry of `u` is for `slug`.
pub open spec fn has_usage(u: Seq<PersonaUsage>, slug: Seq<char>) -> bool {
    exists|p: int| 0 <= p < u.len() && u[p].persona_slug@ == slug
}

/// `u` lists every advisor of either count once, with both counts, most
/// rooms first.
pub open spec fn usage_ok(u: Seq<PersonaUsage>, replies: Seq<(String, i64)>, rooms: Seq<(String, i64)>) -> bool {
    &&& forall|p: int, q: int| 0 <= p < q < u.len() ==> u[p].persona_slug@ != u[q].persona_slug@
    &&& forall|p: int|
        0 <= p < u.len() ==> #[trigger] u[p].rooms_with == last_count(
            rooms,
            u[p].persona_slug@,
            rooms.len() as int,
        ) && u[p].replies == last_count(replies, u[p].persona_slug@, replies.len() as int)
    &&& forall|p: int|
        0 <= p < u.len() ==> row_keys(rooms).contains(#[trigger] u[p].persona_slug@) || row_keys(
            replies,
        ).contains(u[p].persona_slug@)
    &&& forall|j: int| 0 <= j < rooms.len() ==> #[trigger] has_usage(u, row_keys(rooms)[j])
    &&& forall|j: int| 0 <= j < replies.len() ==> #[trigger] has_usage(u, row_keys(replies)[j])
    &&& forall|p: int, q: int| 0 <= p <= q < u.len() ==> u[p].rooms_with >= u[q].rooms_with
}

fn last_count_exec(rows: &Vec<(String, i64)>, slug: &str) -> (r: i64)
    ensures
        r == last_count(rows@, slug@, rows@.len() as int),
{
    let mut i: usize = rows.len();
    while i > 0
        invariant
            i <= rows@.len(),
            forall|j: int| i <= j < rows@.len() ==> rows@[j].0@ != slug@,
            last_count(rows@, slug@, rows@.len() as int) == last_count(rows@, slug@, i as int),
        decreases i,
    {
        if crate::text::str_eq(rows[i - 1].0.as_str(), slug) {
            return rows[i - 1].1;
        }
        i = i - 1;
    }
    0
}

/// Advisor usage from reply counts and room counts, each `(slug, count)`:
/// every advisor named by either, with both counts (0 where a list lacks
/// it), ordered by rooms, most first.
pub fn persona_usage(replies: &Vec<(String, i64)>, rooms: &Vec<(String, i64)>) -> (r: Vec<PersonaUsage>)
    requires
        rooms@.len() + replies@.len() <= usize::MAX,
    ensures
        usage_ok(r@, replies@, rooms@),
{
    let ghost rk = row_keys(rooms@);
    let ghost pk = row_keys(replies@);
    let mut labels: Vec<String> = Vec::new();
    let mut i: usize = 0;
    while i < rooms.len()
        invariant
            i <= rooms@.len(),
            rk == row_keys(rooms@),
            labels@.len() == i,
            forall|j: int| 0 <= j < i ==> #[trigger] labels@[j]@ == rk[j],
        decreases rooms.len() - i,
    {
        labels.push(owned(rooms[i].0.as_str()));
        i = i + 1;
    }
    let mut i: usize = 0;
    while i < replies.len()
        invariant
            i <= replies@.len(),
            rk == row_keys(rooms@),
            pk == row_keys(replies@),
            labels@.len() == rk.len() + i,
            forall|j: int| 0 <= j < rk.len() ==> #[trigger] labels@[j]@ == rk[j],
            forall|j: int| 0 <= j < i ==> #[trigger] labels@[rk.len() + j]@ == pk[j],
        decreases replies.len() - i,
    {
        labels.push(owned(replies[i].0.as_str()));
        i = i + 1;
    }
    let ghost ls = rk + pk;
    assert forall|j: int| 0 <= j < ls.len() implies #[trigger] string_views(labels@)[j] == ls[j] by {
        if j >= rk.len() {
            assert(labels@[rk.len() + (j - rk.len())]@ == pk[j - rk.len()]);
        }
    }
    assert(string_views(labels@) =~= ls);
    let keys = tally(&labels);
    let ghost kv = tally_view(keys@);
    proof {
        assert forall|j: int| 0 <= j < rooms@.len() implies #[trigger] listed(kv, rk[j]) by {
            assert(ls[j] == rk[j]);
            assert(listed(kv, ls[j]));
        }
        assert forall|j: int| 0 <= j < replies@.len() implies #[trigger] listed(kv, pk[j]) by {
            assert(ls[rk.len() + j] == pk[j]);
            assert(listed(kv, ls[rk.len() + j]));
        }
        assert forall|p: int| 0 <= p < kv.len() implies rk.contains(#[trigger] kv[p].0) || pk.contains(kv[p].0) by {
            lemma_occurrences_bounds(ls, kv[p].0, ls.len() as int);
            if kv[p].1 > 0 {
                let j = choose|j: int| 0 <= j < ls.len() && ls[j] == kv[p].0;
                if j < rk.len() {
                    assert(rk[j] == kv[p].0);
                } else {
                    assert(pk[j - rk.len()] == kv[p].0);
                }
            }
        }
    }
    let mut out: Vec<PersonaUsage> = Vec::new();
    let mut k: usize = 0;
    while k < keys.len()
        invariant
            k <= keys@.len(),
            kv == tally_view(keys@),
            is_tally(kv, ls),
            forall|p: int, q: int| 0 <= p < q < out@.len() ==> out@[p].persona_slug@ != out@[q].persona_slug@,
            forall|p: int|
                0 <= p < out@.len() ==> #[trigger] out@[p].rooms_with == last_count(
                    rooms@,
                    out@[p].persona_slug@,
                    rooms@.len() as int,
                ) && out@[p].replies == last_count(replies@, out@[p].persona_slug@, replies@.len() as int),
            forall|p: int|
                0 <= p < out@.len() ==> exists|m: int| #![trigger kv[m]] 0 <= m < k && kv[m].0 == (#[trigger] out@[p]).persona_slug@,
            forall|m: int| 0 <= m < k ==> #[trigger] has_usage(out@, kv[m].0),
            forall|p: int, q: int| 0 <= p <= q < out@.len() ==> out@[p].rooms_with >= out@[q].rooms_with,
        decreases keys.len() - k,
    {
        let slug = keys[k].0.as_str();
        assert(kv[k as int].0 == slug@);
        let e = PersonaUsage {
            persona_slug: owned(slug),
            rooms_with: last_count_exec(rooms, slug),
            replies: last_count_exec(replies, slug),
        };
        let mut pos: usize = 0;
        while pos < out.len() && out[pos].rooms_with >= e.rooms_with
            invariant
                pos <= out@.len(),
                forall|q: int| 0 <= q < pos ==> out@[q].rooms_with >= e.rooms_with,
            decreases out.len() - pos,
        {
            pos = pos + 1;
        }
        let ghost before = out@;
        proof {
            if has_usage(before, slug@) {
                let p = choose|p: int| 0 <= p < before.len() && before[p].persona_slug@ == slug@;
                let m = choose|m: int| 0 <= m < k && kv[m].0 == before[p].persona_slug@;
                assert(kv[m].0 == kv[k as int].0);
            }
        }
        out.insert(pos, e);
        proof {
            before.insert_ensures(pos as int, e);
            let now = out@;
            assert forall|q: int| 0 <= q < now.len() implies (q < pos ==> now[q] == before[q]) && (q
                == pos ==> now[q] == e) && (q > pos ==> now[q] == before[q - 1]) by {
                if q > pos {
                    assert(now[(q - 1) + 1] == before[q - 1]);
                }
            }
            assert forall|p: int, q: int| 0 <= p < q < now.len() implies now[p].persona_slug@
                != now[q].persona_slug@ by {
                if p == pos {
                    assert(!has_usage(before, slug@) ==> before[q - 1].persona_slug@ != slug@);
                } else if q == pos {
                    assert(!has_usage(before, slug@) ==> before[p].persona_slug@ != slug@);
                }
            }
            assert forall|p: int| 0 <= p < now.len() implies exists|m: int| #![trigger kv[m]] 0 <= m < k + 1 && kv[m].0
                == (#[trigger] now[p]).persona_slug@ by {
                if p == pos {
                    assert(kv[k as int].0 == now[p].persona_slug@);
                } else if p < pos {
                    assert(now[p] == before[p]);
                } else {
                    assert(now[p] == before[p - 1]);
                }
            }
            assert forall|m: int| 0 <= m < k + 1 implies #[trigger] has_usage(now, kv[m].0) by {
                if m == k {
                    assert(now[pos as int].persona_slug@ == kv[m].0);
                } else {
                    assert(has_usage(before, kv[m].0));
                    let p = choose|p: int| 0 <= p < before.len() && before[p].persona_slug@ == kv[m].0;
                    if p < pos {
                        assert(now[p] == before[p]);
                    } else {
                        assert(now[p + 1] == before[p]);
                    }
                }
            }
            assert forall|p: int, q: int| 0 <= p <= q < now.len() implies now[p].rooms_with
                >= now[q].rooms_with by {
                if p < pos && q < pos {
                } else if p < pos && q == pos {
                } else if p < pos && q > pos {
                    assert(now[q] == before[q - 1]);
                    if q - 1 >= pos {
                        assert(before[q - 1].rooms_with <= before[pos as int].rooms_with || q - 1 == pos);
                    }
                } else if p == pos && q > pos {
                    assert(now[q] == before[q - 1]);
                    assert(!(before[pos as int].rooms_with >= e.rooms_with) || pos == before.len());
                } else if p > pos {
                    assert(now[p] == before[p - 1]);
                    assert(now[q] == before[q - 1]);
                }
            }
        }
        k = k + 1;
    }
    proof {
        let u = out@;
        assert forall|j: int| 0 <= j < rooms@.len() implies #[trigger] has_usage(u, row_keys(rooms@)[j]) by {
            assert(listed(kv, rk[j]));
            let m = choose|m: int| 0 <= m < kv.len() && kv[m].0 == rk[j];
            assert(has_usage(u, kv[m].0));
        }
        assert forall|j: int| 0 <= j < replies@.len() implies #[trigger] has_usage(u, row_keys(replies@)[j]) by {
            assert(listed(kv, pk[j]));
            let m = choose|m: int| 0 <= m < kv.len() && kv[m].0 == pk[j];
            assert(has_usage(u, kv[m].0));
        }
        assert forall|p: int| 0 <= p < u.len() implies row_keys(rooms@).contains(#[trigger] u[p].persona_slug@)
            || row_keys(replies@).contains(u[p].persona_slug@) by {
            let m = choose|m: int| 0 <= m < k && kv[m].0 == u[p].persona_slug@;
            assert(rk.contains(kv[m].0) || pk.contains(kv[m].0));
        }
    }
    out
}


} // verus!
