//! The free-form group chat: room and user identifiers, room titles and
//! previews, who answers a message, the messages an advisor sees, and the
//! telemetry whitelist that keeps chat content out of analytics.

use vstd::prelude::*;

use crate::markdown::string_views;
use crate::model::{ChatMessage, MessageRole};
use crate::text::{chars_of, contains, owned, starts_with, string_of, take_chars, take_chars_vec, trim, trim_vec};
use crate::wisdom::{append_joined, join, system_prompt, WisdomPersona};

verus! {

// ---------------------------------------------------------------------------
// Data
// ---------------------------------------------------------------------------

/// Metadata of a chat room.
pub struct RoomMeta {
    pub room_id: String,
    pub created_by: String,
    pub created_at: String,
    pub title: String,
    pub persona_slugs: Vec<String>,
}

/// One turn of a chat room.
pub struct ChatTurn {
    pub ts: String,
    /// "facilitator", "user" or "persona".
    pub role: String,
    pub slug: Option<String>,
    pub name: Option<String>,
    pub content: String,
}

/// A room in the room list.
pub struct RoomSummary {
    pub room_id: String,
    pub title: String,
    pub created_at: String,
    pub created_by: String,
    pub persona_slugs: Vec<String>,
    pub turn_count: usize,
    pub last_preview: Option<String>,
}

/// A room with all its turns.
pub struct RoomDetail {
    pub room: RoomMeta,
    pub turns: Vec<ChatTurn>,
}

/// An advisor offered for a room.
pub struct PersonaInfo {
    pub slug: String,
    pub name: String,
    pub title: String,
}

/// Request to create a room.
pub struct CreateRoomRequest {
    pub title: String,
    pub persona_slugs: Vec<String>,
}

/// A message sent to a room.
pub struct SendMessageRequest {
    pub content: String,
}

// ---------------------------------------------------------------------------
// Identifiers
// ---------------------------------------------------------------------------

pub open spec fn is_id_char(c: char) -> bool {
    ('a' <= c <= 'z') || ('A' <= c <= 'Z') || ('0' <= c <= '9') || c == '-' || c == '_'
}

/// A directory-safe identifier: not empty, shorter than `max` bytes, only
/// ASCII letters, digits, `-` and `_`.
pub open spec fn safe_id(s: Seq<char>, max: nat) -> bool {
    s.len() > 0 && vstd::utf8::encode_utf8(s).len() < max && forall|i: int|
        0 <= i < s.len() ==> is_id_char(#[trigger] s[i])
}

fn safe_id_exec(s: &str, max: usize) -> (r: bool)
    ensures
        r == safe_id(s@, max as nat),
{
    if s.is_empty() {
        return false;
    }
    if s.as_bytes().len() >= max {
        return false;
    }
    let cs = chars_of(s);
    let mut i: usize = 0;
    while i < cs.len()
        invariant
            i <= cs@.len(),
            cs@ == s@,
            forall|j: int| 0 <= j < i ==> is_id_char(#[trigger] cs@[j]),
        decreases cs.len() - i,
    {
        let c = cs[i];
        if !(('a' <= c && c <= 'z') || ('A' <= c && c <= 'Z') || ('0' <= c && c <= '9') || c == '-'
            || c == '_') {
            return false;
        }
        i = i + 1;
    }
    true
}

/// Whether a room id is safe as a directory name (under 64 bytes).
pub fn validate_room_id(room_id: &str) -> (r: bool)
    ensures
        r == safe_id(room_id@, 64),
{
    safe_id_exec(room_id, 64)
}

/// Whether a user id is safe as a directory name (under 80 bytes).
pub fn validate_user_id(user_id: &str) -> (r: bool)
    ensures
        r == safe_id(user_id@, 80),
{
    safe_id_exec(user_id, 80)
}

// ---------------------------------------------------------------------------
// Opening, title, preview
// ---------------------------------------------------------------------------

/// The local opening used when the model is slow or silent.
pub fn fallback_opening(names_joined: &str) -> (r: String)
    ensures
        r@ == "欢迎，今天群里有 "@ + names_joined@ + "。最近在想什么？"@,
{
    let mut s = owned("欢迎，今天群里有 ");
    s.append(names_joined);
    s.append("。最近在想什么？");
    s
}

/// The facilitator's request for a room opening.
pub fn opening_prompt(names_joined: &str) -> (r: String)
    ensures
        r@ == "案主刚拉好这个群，群里有："@ + names_joined@
            + "。请你用 1-2 句话亲切开场，问案主\"最近在想什么\"或\"最近遇到什么困惑\"。要自然、像微信里的朋友说话，不要太正式，不要列条目。"@,
{
    let mut s = owned("案主刚拉好这个群，群里有：");
    s.append(names_joined);
    s.append("。请你用 1-2 句话亲切开场，问案主\"最近在想什么\"或\"最近遇到什么困惑\"。要自然、像微信里的朋友说话，不要太正式，不要列条目。");
    s
}

/// Names joined for display: "、" between them.
pub fn join_names(names: &Vec<String>) -> (r: String)
    ensures
        r@ == join(string_views(names@), "、"@),
{
    let mut s = String::new();
    append_joined(&mut s, names, "、");
    proof {
        assert(Seq::<char>::empty() + join(string_views(names@), "、"@) == join(
            string_views(names@),
            "、"@,
        ));
    }
    s
}

/// The opening that is shown: the model's (think-stripped) reply, or the
/// fallback when it is blank.
pub fn opening_or_fallback(reply: &str, names_joined: &str) -> (r: String)
    ensures
        trim(reply@).len() > 0 ==> r@ == reply@,
        trim(reply@).len() == 0 ==> r@ == "欢迎，今天群里有 "@ + names_joined@ + "。最近在想什么？"@,
{
    if crate::text::is_blank(&chars_of(reply)) {
        fallback_opening(names_joined)
    } else {
        owned(reply)
    }
}

/// A room's title: "新群聊" when blank, else the first 60 characters of the
/// trimmed title.
pub open spec fn room_title_of(raw: Seq<char>) -> Seq<char> {
    if trim(raw).len() == 0 {
        "新群聊"@
    } else {
        take_chars(trim(raw), 60)
    }
}

/// The title a new room gets (see `room_title_of`).
pub fn room_title(raw: &str) -> (r: String)
    ensures
        r@ == room_title_of(raw@),
{
    let t = trim_vec(&chars_of(raw));
    if t.len() == 0 {
        owned("新群聊")
    } else {
        string_of(&take_chars_vec(&t, 60))
    }
}

/// Who a turn is shown as: its name, else by role.
pub open spec fn speaker_label(t: ChatTurn) -> Seq<char> {
    match t.name {
        Some(n) => n@,
        None => if t.role@ == "user"@ {
            "案主"@
        } else if t.role@ == "facilitator"@ {
            "主持人"@
        } else {
            Seq::empty()
        },
    }
}

/// The preview of a room's last turn: speaker and the first 40 characters.
pub open spec fn preview_of(t: ChatTurn) -> Seq<char> {
    speaker_label(t) + ": "@ + take_chars(t.content@, 40)
}

/// The preview line of a room's last turn (see `preview_of`).
pub fn room_preview(t: &ChatTurn) -> (r: String)
    ensures
        r@ == preview_of(*t),
{
    let mut s = match &t.name {
        Some(n) => n.clone(),
        None => if crate::text::str_eq(t.role.as_str(), "user") {
            owned("案主")
        } else if crate::text::str_eq(t.role.as_str(), "facilitator") {
            owned("主持人")
        } else {
            String::new()
        },
    };
    s.append(": ");
    crate::text::append_chars(&mut s, &take_chars_vec(&chars_of(t.content.as_str()), 40));
    s
}

// ---------------------------------------------------------------------------
// Who answers
// ---------------------------------------------------------------------------

/// Index of the first persona addressed by `@name` or `@slug` at the start
/// of the message, from `i` on.
pub open spec fn addressed_from(t: Seq<char>, ps: Seq<WisdomPersona>, i: int) -> Option<int>
    decreases ps.len() - i,
{
    if i < 0 || i >= ps.len() {
        None
    } else if starts_with(t, "@"@ + ps[i].name@) || starts_with(t, "@"@ + ps[i].slug@) {
        Some(i)
    } else {
        addressed_from(t, ps, i + 1)
    }
}

/// The personas that answer a message: the one addressed with a leading
/// `@name` / `@slug`, else all of them (an unknown `@` included).
pub open spec fn responders(content: Seq<char>, ps: Seq<WisdomPersona>) -> Seq<WisdomPersona> {
    let t = crate::text::trim_start(content);
    if !starts_with(t, "@"@) {
        ps
    } else {
        match addressed_from(t, ps, 0) {
            Some(k) => seq![ps[k]],
            None => ps,
        }
    }
}

proof fn lemma_addressed_bounds(t: Seq<char>, ps: Seq<WisdomPersona>, i: int)
    ensures
        addressed_from(t, ps, i) matches Some(k) ==> 0 <= k < ps.len(),
    decreases ps.len() - i,
{
    if 0 <= i < ps.len() && !(starts_with(t, "@"@ + ps[i].name@) || starts_with(t, "@"@ + ps[i].slug@)) {
        lemma_addressed_bounds(t, ps, i + 1);
    }
}

fn all_refs(ps: &[WisdomPersona]) -> (r: Vec<&WisdomPersona>)
    ensures
        r@.len() == ps@.len(),
        forall|i: int| 0 <= i < r@.len() ==> *r@[i] == ps@[i],
{
    let mut out: Vec<&WisdomPersona> = Vec::new();
    let mut i: usize = 0;
    while i < ps.len()
        invariant
            i <= ps@.len(),
            out@.len() == i,
            forall|j: int| 0 <= j < i ==> *out@[j] == ps@[j],
        decreases ps.len() - i,
    {
        out.push(&ps[i]);
        i = i + 1;
    }
    out
}

/// Which room personas answer a message (see `responders`).
pub fn pick_responders<'a>(content: &str, room_personas: &'a [WisdomPersona]) -> (r: Vec<&'a WisdomPersona>)
    ensures
        r@.len() == responders(content@, room_personas@).len(),
        forall|i: int| 0 <= i < r@.len() ==> *r@[i] == responders(content@, room_personas@)[i],
{
    let t = crate::text::trim_start_vec(&chars_of(content));
    if !crate::text::starts_with_str(&t, "@") {
        return all_refs(room_personas);
    }
    let mut i: usize = 0;
    while i < room_personas.len()
        invariant
            i <= room_personas@.len(),
            t@ == crate::text::trim_start(content@),
            starts_with(t@, "@"@),
            addressed_from(t@, room_personas@, i as int) == addressed_from(t@, room_personas@, 0),
        decreases room_personas.len() - i,
    {
        let p = &room_personas[i];
        let mut by_name = owned("@");
        by_name.append(p.name.as_str());
        let mut by_slug = owned("@");
        by_slug.append(p.slug.as_str());
        if crate::text::starts_with_str(&t, by_name.as_str()) || crate::text::starts_with_str(
            &t,
            by_slug.as_str(),
        ) {
            assert(by_name@ == "@"@ + room_personas@[i as int].name@);
            assert(by_slug@ == "@"@ + room_personas@[i as int].slug@);
            assert(addressed_from(t@, room_personas@, i as int) == Some(i as int));
            let mut out: Vec<&WisdomPersona> = Vec::new();
            out.push(p);
            return out;
        }
        i = i + 1;
    }
    all_refs(room_personas)
}

// ---------------------------------------------------------------------------
// What an advisor sees
// ---------------------------------------------------------------------------

/// Content of the last "user" turn, or empty.
pub open spec fn latest_user_message(h: Seq<ChatTurn>, n: int) -> Seq<char>
    decreases n,
{
    if n <= 0 || n > h.len() {
        Seq::empty()
    } else if h[n - 1].role@ == "user"@ {
        h[n - 1].content@
    } else {
        latest_user_message(h, n - 1)
    }
}

/// Names of the other room personas (by slug), in order.
pub open spec fn other_names(ps: Seq<WisdomPersona>, slug: Seq<char>, n: int) -> Seq<Seq<char>>
    decreases n,
{
    if n <= 0 || n > ps.len() {
        Seq::empty()
    } else if ps[n - 1].slug@ != slug {
        other_names(ps, slug, n - 1).push(ps[n - 1].name@)
    } else {
        other_names(ps, slug, n - 1)
    }
}

/// The group-chat framing appended to an advisor's system prompt.
pub open spec fn group_framing(others: Seq<Seq<char>>, title: Seq<char>) -> Seq<char> {
    let label = if others.len() == 0 {
        "1v1 对话"@
    } else {
        "和 "@ + join(others, "、"@) + " 一起"@
    };
    "\n\n## 群聊场景\n你正和案主"@ + label + "在一个轻量微信群里 freestyle 聊天（标题："@ + title
        + "）。\n\n规则：\n- 用 1-3 句话回应即可，不要写长篇大论\n- 像在微信群里说话那样自然、真诚、有温度\n- 直接对案主说话；如果别的幕僚之前发了言，可以呼应或反驳\n- 可以问回案主一两个问题，让对话流转\n- 全程中文，不要列条目，不要复述案主的问题"@
}

/// A message as (role, content).
pub open spec fn msg_view(m: ChatMessage) -> (MessageRole, Seq<char>) {
    (m.role, m.content@)
}

pub open spec fn msg_views(ms: Seq<ChatMessage>) -> Seq<(MessageRole, Seq<char>)> {
    ms.map_values(|m: ChatMessage| msg_view(m))
}

/// The message a history turn becomes for the advisor with slug `slug`:
/// its own past replies are assistant messages, everything else is a
/// labelled user message; turns of unknown roles are dropped.
pub open spec fn history_message(t: ChatTurn, slug: Seq<char>) -> Option<(MessageRole, Seq<char>)> {
    if t.role@ == "user"@ {
        Some((MessageRole::User, "[案主]: "@ + t.content@))
    } else if t.role@ == "facilitator"@ {
        Some((MessageRole::User, "[主持人]: "@ + t.content@))
    } else if t.role@ == "persona"@ {
        if (t.slug matches Some(s) && s@ == slug) {
            Some((MessageRole::Assistant, t.content@))
        } else {
            Some((MessageRole::User, "["@ + (match t.name {
                Some(n) => n@,
                None => "某幕僚"@,
            }) + "]: "@ + t.content@))
        }
    } else {
        None
    }
}

pub open spec fn history_messages(h: Seq<ChatTurn>, slug: Seq<char>, n: int) -> Seq<(MessageRole, Seq<char>)>
    decreases n,
{
    if n <= 0 || n > h.len() {
        Seq::empty()
    } else {
        match history_message(h[n - 1], slug) {
            Some(m) => history_messages(h, slug, n - 1).push(m),
            None => history_messages(h, slug, n - 1),
        }
    }
}

/// The messages one advisor replies to: its five-layer (or legacy) system
/// prompt seeded with the latest case-owner message plus the group-chat
/// framing, then the room history.
pub open spec fn chat_messages(p: WisdomPersona, room: Seq<WisdomPersona>, title: Seq<char>, h: Seq<ChatTurn>) -> Seq<(MessageRole, Seq<char>)> {
    seq![(MessageRole::System, system_prompt(p, latest_user_message(h, h.len() as int), None)
        + group_framing(other_names(room, p.slug@, room.len() as int), title))] + history_messages(
        h,
        p.slug@,
        h.len() as int,
    )
}

fn latest_user_exec(history: &[ChatTurn]) -> (r: String)
    ensures
        r@ == latest_user_message(history@, history@.len() as int),
{
    let mut n: usize = history.len();
    while n > 0
        invariant
            n <= history@.len(),
            latest_user_message(history@, n as int) == latest_user_message(history@, history@.len() as int),
        decreases n,
    {
        if crate::text::str_eq(history[n - 1].role.as_str(), "user") {
            return history[n - 1].content.clone();
        }
        n = n - 1;
    }
    String::new()
}

fn group_framing_exec(room: &[WisdomPersona], slug: &String, title: &String) -> (r: String)
    ensures
        r@ == group_framing(other_names(room@, slug@, room@.len() as int), title@),
{
    let mut names: Vec<String> = Vec::new();
    let mut i: usize = 0;
    while i < room.len()
        invariant
            i <= room@.len(),
            string_views(names@) == other_names(room@, slug@, i as int),
        decreases room.len() - i,
    {
        if !(room[i].slug == *slug) {
            let ghost before = names@;
            names.push(room[i].name.clone());
            proof {
                assert(string_views(names@) =~= string_views(before).push(room@[i as int].name@));
            }
        }
        i = i + 1;
    }
    let mut s = owned("\n\n## 群聊场景\n你正和案主");
    if names.len() == 0 {
        s.append("1v1 对话");
    } else {
        s.append("和 ");
        append_joined(&mut s, &names, "、");
        s.append(" 一起");
    }
    s.append("在一个轻量微信群里 freestyle 聊天（标题：");
    s.append(title.as_str());
    s.append("）。\n\n规则：\n- 用 1-3 句话回应即可，不要写长篇大论\n- 像在微信群里说话那样自然、真诚、有温度\n- 直接对案主说话；如果别的幕僚之前发了言，可以呼应或反驳\n- 可以问回案主一两个问题，让对话流转\n- 全程中文，不要列条目，不要复述案主的问题");
    s
}

fn history_message_exec(t: &ChatTurn, slug: &String) -> (r: Option<ChatMessage>)
    ensures
        match history_message(*t, slug@) {
            Some(m) => r matches Some(x) && msg_view(x) == m,
            None => r is None,
        },
{
    let role = t.role.as_str();
    if crate::text::str_eq(role, "user") {
        let mut c = owned("[案主]: ");
        c.append(t.content.as_str());
        Some(ChatMessage::user(c.as_str()))
    } else if crate::text::str_eq(role, "facilitator") {
        let mut c = owned("[主持人]: ");
        c.append(t.content.as_str());
        Some(ChatMessage::user(c.as_str()))
    } else if crate::text::str_eq(role, "persona") {
        let own = match &t.slug {
            Some(s) => *s == *slug,
            None => false,
        };
        if own {
            Some(ChatMessage::assistant(t.content.as_str()))
        } else {
            let mut c = owned("[");
            match &t.name {
                Some(n) => c.append(n.as_str()),
                None => c.append("某幕僚"),
            }
            c.append("]: ");
            c.append(t.content.as_str());
            Some(ChatMessage::user(c.as_str()))
        }
    } else {
        None
    }
}

/// The messages one advisor replies to in a room (see `chat_messages`).
pub fn build_chat_messages(
    persona: &WisdomPersona,
    room_personas: &[WisdomPersona],
    meta: &RoomMeta,
    history: &[ChatTurn],
) -> (r: Vec<ChatMessage>)
    ensures
        msg_views(r@) == chat_messages(*persona, room_personas@, meta.title@, history@),
{
    let latest = latest_user_exec(history);
    let mut system = persona.build_system_prompt(latest.as_str(), None);
    let framing = group_framing_exec(room_personas, &persona.slug, &meta.title);
    system.append(framing.as_str());
    let mut messages: Vec<ChatMessage> = Vec::new();
    messages.push(ChatMessage::system(system.as_str()));
    let ghost head = msg_views(messages@);
    let mut i: usize = 0;
    while i < history.len()
        invariant
            i <= history@.len(),
            msg_views(messages@) == head + history_messages(history@, persona.slug@, i as int),
        decreases history.len() - i,
    {
        match history_message_exec(&history[i], &persona.slug) {
            Some(m) => {
                let ghost before = messages@;
                messages.push(m);
                proof {
                    assert(msg_views(messages@) =~= msg_views(before).push(msg_view(m)));
                }
            },
            None => {},
        }
        i = i + 1;
    }
    messages
}

// ---------------------------------------------------------------------------
// Telemetry whitelist
// ---------------------------------------------------------------------------

/// The shape of an analytics event's payload, as far as the whitelist
/// needs it.
pub enum EventPayload {
    /// A JSON null.
    Null,
    /// A JSON object with these keys.
    Object(Vec<String>),
    /// Any other JSON value (array, string, number, bool).
    Other,
}

/// The payload fields allowed for a chat event type; none for an unknown
/// chat event.
pub open spec fn chat_event_fields(event_type: Seq<char>) -> Option<Seq<Seq<char>>> {
    if event_type == "chat_room_created"@ {
        Some(seq!["room_id"@, "persona_count"@, "persona_slugs"@, "has_title"@])
    } else if event_type == "chat_message_sent"@ {
        Some(seq!["room_id"@, "msg_index"@, "char_count"@, "has_mention"@, "mention_persona_slug"@])
    } else if event_type == "chat_persona_replied"@ {
        Some(seq!["room_id"@, "persona_slug"@, "reply_char_count"@, "latency_ms"@])
    } else if event_type == "chat_topic_categorized"@ {
        Some(seq!["room_id"@, "category"@])
    } else if event_type == "chat_room_resumed"@ {
        Some(seq!["room_id"@, "days_since_create"@, "turn_count"@])
    } else if event_type == "chat_session_heartbeat"@ {
        Some(seq!["room_id"@])
    } else {
        None
    }
}

/// Whether an analytics event may be stored: non-chat events always; chat
/// events only when known and carrying nothing but whitelisted fields (a
/// null payload included), so no message text can leak.
pub open spec fn payload_allowed(event_type: Seq<char>, data: EventPayload) -> bool {
    if !starts_with(event_type, "chat_"@) {
        true
    } else {
        match chat_event_fields(event_type) {
            None => false,
            Some(fields) => match data {
                EventPayload::Null => true,
                EventPayload::Other => false,
                EventPayload::Object(keys) => forall|i: int|
                    0 <= i < keys@.len() ==> fields.contains(#[trigger] keys@[i]@),
            },
        }
    }
}

fn chat_event_fields_exec(event_type: &str) -> (r: Option<Vec<&'static str>>)
    ensures
        match chat_event_fields(event_type@) {
            Some(f) => r matches Some(v) && crate::markdown::str_views(v@) == f,
            None => r is None,
        },
{
    let e = |a: &str| -> (b: bool)
        ensures
            b == (event_type@ == a@),
        { crate::text::str_eq(event_type, a) };
    let r: Option<Vec<&'static str>> = if e("chat_room_created") {
        Some(vec!["room_id", "persona_count", "persona_slugs", "has_title"])
    } else if e("chat_message_sent") {
        Some(vec!["room_id", "msg_index", "char_count", "has_mention", "mention_persona_slug"])
    } else if e("chat_persona_replied") {
        Some(vec!["room_id", "persona_slug", "reply_char_count", "latency_ms"])
    } else if e("chat_topic_categorized") {
        Some(vec!["room_id", "category"])
    } else if e("chat_room_resumed") {
        Some(vec!["room_id", "days_since_create", "turn_count"])
    } else if e("chat_session_heartbeat") {
        Some(vec!["room_id"])
    } else {
        None
    };
    proof {
        if r is Some {
            assert(crate::markdown::str_views(r.unwrap()@) =~= chat_event_fields(event_type@).unwrap());
        }
    }
    r
}

fn key_listed(key: &String, fields: &Vec<&'static str>) -> (r: bool)
    ensures
        r == crate::markdown::str_views(fields@).contains(key@),
{
    let ghost fv = crate::markdown::str_views(fields@);
    let mut i: usize = 0;
    while i < fields.len()
        invariant
            i <= fields@.len(),
            fv == crate::markdown::str_views(fields@),
            forall|j: int| 0 <= j < i ==> fv[j] != key@,
        decreases fields.len() - i,
    {
        assert(fv[i as int] == fields@[i as int]@);
        if crate::text::str_eq(key.as_str(), fields[i]) {
            return true;
        }
        i = i + 1;
    }
    false
}

/// Whether an analytics event may be stored (see `payload_allowed`).
pub fn chat_event_payload_allowed(event_type: &str, data: &EventPayload) -> (r: bool)
    ensures
        r == payload_allowed(event_type@, *data),
{
    if !crate::text::starts_with_str(&chars_of(event_type), "chat_") {
        return true;
    }
    let fields = match chat_event_fields_exec(event_type) {
        Some(f) => f,
        None => {
            return false;
        },
    };
    match data {
        EventPayload::Null => true,
        EventPayload::Other => false,
        EventPayload::Object(keys) => {
            let mut i: usize = 0;
            while i < keys.len()
                invariant
                    i <= keys@.len(),
                    starts_with(event_type@, "chat_"@),
                    chat_event_fields(event_type@) is Some,
                    *data matches EventPayload::Object(k) && k@ == keys@,
                    crate::markdown::str_views(fields@) == chat_event_fields(event_type@).unwrap(),
                    forall|j: int|
                        0 <= j < i ==> chat_event_fields(event_type@).unwrap().contains(
                            #[trigger] keys@[j]@,
                        ),
                decreases keys.len() - i,
            {
                if !key_listed(&keys[i], &fields) {
                    assert(!chat_event_fields(event_type@).unwrap().contains(keys@[i as int]@));
                    return false;
                }
                i = i + 1;
            }
            true
        },
    }
}

// ---------------------------------------------------------------------------
// Room requests and the room list
// ---------------------------------------------------------------------------

/// The advisors a new room gets, or why it is refused: an unsafe user id,
/// no slugs, or no slug the registry knows.
pub fn create_room_check<'a>(user_id: &str, slugs: &[String], registry: &'a crate::wisdom::PersonaRegistry) -> (r: Result<
    Vec<&'a WisdomPersona>,
    &'static str,
>)
    ensures
        !safe_id(user_id@, 80) ==> (r matches Err(m) && m@ == "invalid user id"@),
        safe_id(user_id@, 80) && slugs@.len() == 0 ==> (r matches Err(m) && m@ == "至少选一个幕僚"@),
        safe_id(user_id@, 80) && slugs@.len() > 0 ==> match r {
            Err(m) => m@ == "没有合法的幕僚 slug"@ && crate::wisdom::filtered_upto(
                registry@,
                string_views(slugs@),
                slugs@.len() as int,
            ).len() == 0,
            Ok(v) => v@.len() > 0 && v@.len() == crate::wisdom::filtered_upto(
                registry@,
                string_views(slugs@),
                slugs@.len() as int,
            ).len() && forall|i: int|
                0 <= i < v@.len() ==> *v@[i] == crate::wisdom::filtered_upto(
                    registry@,
                    string_views(slugs@),
                    slugs@.len() as int,
                )[i],
        },
{
    if !validate_user_id(user_id) {
        return Err("invalid user id");
    }
    if slugs.len() == 0 {
        return Err("至少选一个幕僚");
    }
    let valid = registry.filtered(slugs);
    if valid.len() == 0 {
        return Err("没有合法的幕僚 slug");
    }
    Ok(valid)
}

/// Why a room request's ids are refused, if they are: the user id is
/// checked first, then the room id.
pub fn room_ids_error(user_id: &str, room_id: &str) -> (r: Option<&'static str>)
    ensures
        !safe_id(user_id@, 80) ==> (r matches Some(m) && m@ == "invalid user id"@),
        safe_id(user_id@, 80) && !safe_id(room_id@, 64) ==> (r matches Some(m) && m@
            == "invalid room id"@),
        safe_id(user_id@, 80) && safe_id(room_id@, 64) ==> r is None,
{
    if !validate_user_id(user_id) {
        Some("invalid user id")
    } else if !validate_room_id(room_id) {
        Some("invalid room id")
    } else {
        None
    }
}

/// The text of a chat message as stored: trimmed; none when blank.
pub fn message_text(content: &str) -> (r: Option<String>)
    ensures
        trim(content@).len() == 0 ==> r is None,
        trim(content@).len() > 0 ==> (r matches Some(s) && s@ == trim(content@)),
{
    let t = trim_vec(&chars_of(content));
    if t.len() == 0 {
        None
    } else {
        Some(string_of(&t))
    }
}

/// Rooms newest first: no room is older than one after it.
pub open spec fn newest_first(rs: Seq<RoomSummary>) -> bool {
    forall|p: int, q: int|
        0 <= p < q < rs.len() ==> !crate::admin::text_less(rs[p].created_at@, rs[q].created_at@)
}

proof fn lemma_insert_multiset<A>(s: Seq<A>, pos: int, e: A)
    requires
        0 <= pos <= s.len(),
    ensures
        s.insert(pos, e).to_multiset() =~= s.to_multiset().insert(e),
{
    broadcast use vstd::multiset::group_multiset_axioms;

    let a = s.subrange(0, pos);
    let b = s.subrange(pos, s.len() as int);
    assert(s =~= a + b);
    vstd::seq_lib::lemma_multiset_commutative(a, b);
    vstd::seq_lib::lemma_multiset_commutative(a.push(e), b);
    a.to_multiset_ensures();
    assert(s.insert(pos, e) =~= a.push(e) + b);
}

/// The room list, newest first; rooms created at the same moment keep
/// their order.
pub fn sort_rooms(rooms: Vec<RoomSummary>) -> (r: Vec<RoomSummary>)
    ensures
        r@.to_multiset() =~= rooms@.to_multiset(),
        newest_first(r@),
{
    let mut out: Vec<RoomSummary> = Vec::new();
    let mut rest = rooms;
    let ghost all = rest@;
    let mut i: usize = 0;
    assert(rest@.len() == rest.len());
    assert(out@ =~= all.take(0));
    while rest.len() > 0
        invariant
            all.len() <= usize::MAX,
            i + rest@.len() == all.len(),
            rest@ =~= all.skip(i as int),
            out@.to_multiset() =~= all.take(i as int).to_multiset(),
            newest_first(out@),
        decreases rest.len(),
    {
        let e = rest.remove(0);
        proof {
            assert(e == all[i as int]);
            assert(rest@ =~= all.skip(i + 1));
        }
        let mut pos: usize = 0;
        while pos < out.len() && !crate::admin::text_less_exec(
            out[pos].created_at.as_str(),
            e.created_at.as_str(),
        )
            invariant
                pos <= out@.len(),
                forall|q: int|
                    0 <= q < pos ==> !crate::admin::text_less(out@[q].created_at@, e.created_at@),
            decreases out.len() - pos,
        {
            pos = pos + 1;
        }
        let ghost before = out@;
        let ghost ec = e.created_at@;
        out.insert(pos, e);
        proof {
            before.insert_ensures(pos as int, e);
            lemma_insert_multiset(before, pos as int, e);
            assert(all.take(i + 1) =~= all.take(i as int).push(e));
            all.take(i as int).to_multiset_ensures();
            let now = out@;
            assert forall|p: int, q: int| 0 <= p < q < now.len() implies !crate::admin::text_less(
                now[p].created_at@,
                now[q].created_at@,
            ) by {
                if p < pos && q < pos {
                    assert(now[p] == before[p] && now[q] == before[q]);
                } else if p < pos && q == pos {
                    assert(now[p] == before[p]);
                } else if p < pos {
                    assert(now[p] == before[p]);
                    assert(now[q] == before[q - 1]);
                } else if p == pos {
                    assert(now[q] == before[q - 1]);
                    assert(crate::admin::text_less(before[pos as int].created_at@, ec));
                    assert(!crate::admin::text_less(
                        before[pos as int].created_at@,
                        before[q - 1].created_at@,
                    ) || q - 1 == pos);
                    if crate::admin::text_less(ec, before[q - 1].created_at@) {
                        if q - 1 > pos {
                            crate::admin::lemma_text_less_transitive(
                                before[pos as int].created_at@,
                                ec,
                                before[q - 1].created_at@,
                            );
                        } else {
                            crate::admin::lemma_text_less_transitive(
                                before[pos as int].created_at@,
                                ec,
                                before[pos as int].created_at@,
                            );
                            crate::admin::lemma_text_less_irreflexive(before[pos as int].created_at@);
                        }
                    }
                } else {
                    assert(now[p] == before[p - 1]);
                    assert(now[q] == before[q - 1]);
                }
            }
        }
        i = i + 1;
    }
    proof {
        assert(all.take(i as int) =~= all);
    }
    out
}

} // verus!
