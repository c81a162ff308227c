//! The messages of a conversation with a model.
use vstd::prelude::*;
use vstd::std_specs::cmp::PartialEqSpecImpl;

use crate::clock;
use crate::clock::{prompt_time, TimestampView, PROMPT_TIME_PATTERN};
use crate::json;
use crate::json::{object2, object3, Json, JsonView};
use crate::provider_registry::ResolvedProvider;
use crate::text;
use crate::text::{cat, join, str_eq};

verus! {

/// A Base64-encoded image with its MIME type.
#[derive(Debug, PartialEq, Eq)]
pub struct SerializedImage {
    pub data_base64: String,
    pub mime_type: String,
}

/// What a [`SerializedImage`] is.
pub struct SerializedImageView {
    pub data_base64: Seq<char>,
    pub mime_type: Seq<char>,
}

impl DeepView for SerializedImage {
    type V = SerializedImageView;

    open spec fn deep_view(&self) -> SerializedImageView {
        SerializedImageView { data_base64: self.data_base64@, mime_type: self.mime_type@ }
    }
}

impl View for SerializedImage {
    type V = SerializedImageView;

    open spec fn view(&self) -> SerializedImageView {
        self.deep_view()
    }
}

impl Clone for SerializedImage {
    fn clone(&self) -> (r: Self)
        ensures
            r@ == self@,
    {
        SerializedImage { data_base64: self.data_base64.clone(), mime_type: self.mime_type.clone() }
    }
}

/// An earlier exchange of a conversation.
#[derive(Debug, PartialEq, Eq)]
pub struct AgentExchangeSnapshot {
    pub user_query: String,
    pub assistant_text: String,
    /// Images attached to the user query.
    pub user_images: Vec<SerializedImage>,
}

/// What an [`AgentExchangeSnapshot`] is.
pub struct AgentExchangeSnapshotView {
    pub user_query: Seq<char>,
    pub assistant_text: Seq<char>,
    pub user_images: Seq<SerializedImageView>,
}

impl DeepView for AgentExchangeSnapshot {
    type V = AgentExchangeSnapshotView;

    open spec fn deep_view(&self) -> AgentExchangeSnapshotView {
        AgentExchangeSnapshotView {
            user_query: self.user_query@,
            assistant_text: self.assistant_text@,
            user_images: self.user_images.deep_view(),
        }
    }
}

impl View for AgentExchangeSnapshot {
    type V = AgentExchangeSnapshotView;

    open spec fn view(&self) -> AgentExchangeSnapshotView {
        self.deep_view()
    }
}

/// A copy of a list of images.
pub fn clone_images(images: &Vec<SerializedImage>) -> (r: Vec<SerializedImage>)
    ensures
        r.deep_view() == images.deep_view(),
{
    let r = images.clone();
    proof {
        assert(r.deep_view() =~= images.deep_view());
    }
    r
}

impl Clone for AgentExchangeSnapshot {
    fn clone(&self) -> (r: Self)
        ensures
            r@ == self@,
    {
        AgentExchangeSnapshot {
            user_query: self.user_query.clone(),
            assistant_text: self.assistant_text.clone(),
            user_images: clone_images(&self.user_images),
        }
    }
}

/// A part of a message.
#[derive(Debug, PartialEq, Eq)]
pub enum ContentPart {
    Text(String),
    Image { data_base64: String, mime_type: String },
}

/// What a [`ContentPart`] is.
pub enum ContentPartView {
    Text(Seq<char>),
    Image { data_base64: Seq<char>, mime_type: Seq<char> },
}

impl DeepView for ContentPart {
    type V = ContentPartView;

    open spec fn deep_view(&self) -> ContentPartView {
        match self {
            ContentPart::Text(text) => ContentPartView::Text(text@),
            ContentPart::Image { data_base64, mime_type } => ContentPartView::Image {
                data_base64: data_base64@,
                mime_type: mime_type@,
            },
        }
    }
}

impl View for ContentPart {
    type V = ContentPartView;

    open spec fn view(&self) -> ContentPartView {
        self.deep_view()
    }
}

impl Clone for ContentPart {
    fn clone(&self) -> (r: Self)
        ensures
            r@ == self@,
    {
        match self {
            ContentPart::Text(text) => ContentPart::Text(text.clone()),
            ContentPart::Image { data_base64, mime_type } => ContentPart::Image {
                data_base64: data_base64.clone(),
                mime_type: mime_type.clone(),
            },
        }
    }
}

impl ContentPartView {
    /// The part in the format of OpenAI.
    pub open spec fn openai(self) -> JsonView {
        match self {
            ContentPartView::Text(text) => JsonView::Object(
                seq![("type"@, JsonView::Text("text"@)), ("text"@, JsonView::Text(text))],
            ),
            ContentPartView::Image { data_base64, mime_type } => JsonView::Object(
                seq![
                    ("type"@, JsonView::Text("image_url"@)),
                    (
                        "image_url"@,
                        JsonView::Object(
                            seq![("url"@, JsonView::Text("data:"@ + mime_type + ";base64,"@ + data_base64))],
                        ),
                    ),
                ],
            ),
        }
    }

    /// The part in the format of Anthropic.
    pub open spec fn anthropic(self) -> JsonView {
        match self {
            ContentPartView::Text(text) => JsonView::Object(
                seq![("type"@, JsonView::Text("text"@)), ("text"@, JsonView::Text(text))],
            ),
            ContentPartView::Image { data_base64, mime_type } => JsonView::Object(
                seq![
                    ("type"@, JsonView::Text("image"@)),
                    (
                        "source"@,
                        JsonView::Object(
                            seq![
                                ("type"@, JsonView::Text("base64"@)),
                                ("media_type"@, JsonView::Text(mime_type)),
                                ("data"@, JsonView::Text(data_base64)),
                            ],
                        ),
                    ),
                ],
            ),
        }
    }
}

impl ContentPart {
    /// The part in the format of OpenAI.
    pub fn to_openai_part(&self) -> (r: Json)
        ensures
            r@ == self@.openai(),
    {
        match self {
            ContentPart::Text(text) => object2("type", Json::text("text"), "text", Json::text(text.as_str())),
            ContentPart::Image { data_base64, mime_type } => {
                let url = cat(cat(cat("data:", mime_type.as_str()).as_str(), ";base64,").as_str(), data_base64.as_str());
                object2(
                    "type",
                    Json::text("image_url"),
                    "image_url",
                    json::object1("url", Json::Text(url)),
                )
            },
        }
    }

    /// The part in the format of Anthropic.
    pub fn to_anthropic_part(&self) -> (r: Json)
        ensures
            r@ == self@.anthropic(),
    {
        match self {
            ContentPart::Text(text) => object2("type", Json::text("text"), "text", Json::text(text.as_str())),
            ContentPart::Image { data_base64, mime_type } => object2(
                "type",
                Json::text("image"),
                "source",
                object3(
                    "type",
                    Json::text("base64"),
                    "media_type",
                    Json::text(mime_type.as_str()),
                    "data",
                    Json::text(data_base64.as_str()),
                ),
            ),
        }
    }
}

/// What a message says: a text, or parts that may be images.
#[derive(Debug)]
pub enum MessageContent {
    /// Plain text (system messages, assistant messages).
    Text(String),
    /// Several parts (user messages with images).
    Multi(Vec<ContentPart>),
}

/// What a [`MessageContent`] is.
pub enum MessageContentView {
    Text(Seq<char>),
    Multi(Seq<ContentPartView>),
}

impl View for MessageContent {
    type V = MessageContentView;

    open spec fn view(&self) -> MessageContentView {
        match self {
            MessageContent::Text(text) => MessageContentView::Text(text@),
            MessageContent::Multi(parts) => MessageContentView::Multi(parts.deep_view()),
        }
    }
}

impl Clone for MessageContent {
    fn clone(&self) -> (r: Self)
        ensures
            r@ == self@,
    {
        match self {
            MessageContent::Text(text) => MessageContent::Text(text.clone()),
            MessageContent::Multi(parts) => {
                let copy = parts.clone();
                proof {
                    assert(copy.deep_view() =~= parts.deep_view());
                }
                MessageContent::Multi(copy)
            },
        }
    }
}

/// Parts in the format of OpenAI.
pub open spec fn openai_parts(parts: Seq<ContentPartView>) -> Seq<JsonView> {
    Seq::new(parts.len(), |i: int| parts[i].openai())
}

/// Parts in the format of Anthropic.
pub open spec fn anthropic_parts(parts: Seq<ContentPartView>) -> Seq<JsonView> {
    Seq::new(parts.len(), |i: int| parts[i].anthropic())
}

impl MessageContentView {
    /// The text, where there are no parts.
    pub open spec fn as_text(self) -> Option<Seq<char>> {
        match self {
            MessageContentView::Text(text) => Some(text),
            MessageContentView::Multi(_) => None,
        }
    }

    /// The content in the format of OpenAI.
    pub open spec fn openai(self) -> JsonView {
        match self {
            MessageContentView::Text(text) => JsonView::Text(text),
            MessageContentView::Multi(parts) => JsonView::Array(openai_parts(parts)),
        }
    }

    /// The content in the format of Anthropic.
    pub open spec fn anthropic(self) -> JsonView {
        match self {
            MessageContentView::Text(text) => JsonView::Text(text),
            MessageContentView::Multi(parts) => JsonView::Array(anthropic_parts(parts)),
        }
    }
}

impl MessageContent {
    /// The text, where there are no parts.
    pub fn as_str(&self) -> (r: Option<&str>)
        ensures
            json::opt_str(r) == self@.as_text(),
    {
        match self {
            MessageContent::Text(text) => Some(text.as_str()),
            MessageContent::Multi(_) => None,
        }
    }

    /// The content in the format of OpenAI.
    pub fn to_openai_content_value(&self) -> (r: Json)
        ensures
            r@ == self@.openai(),
    {
        broadcast use json::lemma_array_view;

        match self {
            MessageContent::Text(text) => Json::text(text.as_str()),
            MessageContent::Multi(parts) => {
                let mut items: Vec<Json> = Vec::new();
                let ghost all = openai_parts(parts.deep_view());
                let mut i: usize = 0;
                while i < parts.len()
                    invariant
                        i <= parts@.len(),
                        all == openai_parts(parts.deep_view()),
                        json::views(items@) == all.take(i as int),
                    decreases parts@.len() - i,
                {
                    let ghost before = json::views(items@);
                    let item = parts[i].to_openai_part();
                    let ghost pushed = item@;
                    items.push(item);
                    proof {
                        assert(json::views(items@) =~= before.push(pushed));
                        assert(all.take(i + 1) =~= all.take(i as int).push(all[i as int]));
                    }
                    i = i + 1;
                }
                proof {
                    assert(all.take(i as int) =~= all);
                }
                Json::Array(items)
            },
        }
    }

    /// The content in the format of Anthropic.
    pub fn to_anthropic_content_value(&self) -> (r: Json)
        ensures
            r@ == self@.anthropic(),
    {
        broadcast use json::lemma_array_view;

        match self {
            MessageContent::Text(text) => Json::text(text.as_str()),
            MessageContent::Multi(parts) => {
                let mut items: Vec<Json> = Vec::new();
                let ghost all = anthropic_parts(parts.deep_view());
                let mut i: usize = 0;
                while i < parts.len()
                    invariant
                        i <= parts@.len(),
                        all == anthropic_parts(parts.deep_view()),
                        json::views(items@) == all.take(i as int),
                    decreases parts@.len() - i,
                {
                    let ghost before = json::views(items@);
                    let item = parts[i].to_anthropic_part();
                    let ghost pushed = item@;
                    items.push(item);
                    proof {
                        assert(json::views(items@) =~= before.push(pushed));
                        assert(all.take(i + 1) =~= all.take(i as int).push(all[i as int]));
                    }
                    i = i + 1;
                }
                proof {
                    assert(all.take(i as int) =~= all);
                }
                Json::Array(items)
            },
        }
    }
}

/// A message is equal to a text if it is that text; one of parts is not.
impl PartialEq<&str> for MessageContent {
    fn eq(&self, other: &&str) -> (r: bool) {
        match self.as_str() {
            Some(text) => str_eq(text, other),
            None => false,
        }
    }
}

impl PartialEqSpecImpl<&str> for MessageContent {
    open spec fn obeys_eq_spec() -> bool {
        true
    }

    open spec fn eq_spec(&self, other: &&str) -> bool {
        self@.as_text() == Some(other@)
    }
}

/// A message of a conversation.
#[derive(Debug)]
pub struct ProviderMessage {
    pub role: String,
    pub content: MessageContent,
    pub tool_call_id: Option<String>,
}

/// What a [`ProviderMessage`] is.
pub struct ProviderMessageView {
    pub role: Seq<char>,
    pub content: MessageContentView,
    pub tool_call_id: Option<Seq<char>>,
}

impl DeepView for ProviderMessage {
    type V = ProviderMessageView;

    open spec fn deep_view(&self) -> ProviderMessageView {
        ProviderMessageView {
            role: self.role@,
            content: self.content@,
            tool_call_id: self.tool_call_id.deep_view(),
        }
    }
}

impl View for ProviderMessage {
    type V = ProviderMessageView;

    open spec fn view(&self) -> ProviderMessageView {
        self.deep_view()
    }
}

impl Clone for ProviderMessage {
    fn clone(&self) -> (r: Self)
        ensures
            r@ == self@,
    {
        ProviderMessage {
            role: self.role.clone(),
            content: self.content.clone(),
            tool_call_id: self.tool_call_id.clone(),
        }
    }
}

/// The images of a message, behind its text where there is one.
pub open spec fn parts_of(text: Seq<char>, images: Seq<SerializedImageView>) -> Seq<ContentPartView> {
    let lead = if text.len() > 0 {
        seq![ContentPartView::Text(text)]
    } else {
        Seq::empty()
    };
    lead + Seq::new(
        images.len(),
        |i: int|
            ContentPartView::Image { data_base64: images[i].data_base64, mime_type: images[i].mime_type },
    )
}

impl ProviderMessageView {
    /// A message of plain text.
    pub open spec fn plain(role: Seq<char>, text: Seq<char>) -> Self {
        ProviderMessageView { role, content: MessageContentView::Text(text), tool_call_id: None }
    }

    /// A message of the user with images.
    pub open spec fn user_with_images(text: Seq<char>, images: Seq<SerializedImageView>) -> Self {
        if images.len() == 0 {
            ProviderMessageView::plain("user"@, text)
        } else {
            ProviderMessageView {
                role: "user"@,
                content: MessageContentView::Multi(parts_of(text, images)),
                tool_call_id: None,
            }
        }
    }

    /// The role and the content, in the format of OpenAI.
    pub open spec fn openai_input(self) -> JsonView {
        JsonView::Object(seq![("role"@, JsonView::Text(self.role)), ("content"@, self.content.openai())])
    }

    /// The message of a chat, in the format of OpenAI: with the id of the tool
    /// call that it answers, where it answers one.
    pub open spec fn openai_chat(self) -> JsonView {
        match self.tool_call_id {
            Some(id) => JsonView::Object(
                seq![
                    ("role"@, JsonView::Text(self.role)),
                    ("content"@, self.content.openai()),
                    ("tool_call_id"@, JsonView::Text(id)),
                ],
            ),
            None => self.openai_input(),
        }
    }

    /// The message in the format of Anthropic.
    pub open spec fn anthropic(self) -> JsonView {
        JsonView::Object(seq![("role"@, JsonView::Text(self.role)), ("content"@, self.content.anthropic())])
    }
}

impl ProviderMessage {
    /// A message of the user.
    pub fn user(content: &str) -> (r: Self)
        ensures
            r@ == ProviderMessageView::plain("user"@, content@),
    {
        ProviderMessage {
            role: "user".to_string(),
            content: MessageContent::Text(content.to_string()),
            tool_call_id: None,
        }
    }

    /// A message of the user with images.
    pub fn user_with_images(text: String, images: Vec<SerializedImage>) -> (r: Self)
        ensures
            r@ == ProviderMessageView::user_with_images(text@, images.deep_view()),
    {
        if images.len() == 0 {
            return ProviderMessage::user(text.as_str());
        }
        let ghost given = images.deep_view();
        let ghost said = text@;
        let ghost all = parts_of(said, given);
        let mut parts: Vec<ContentPart> = Vec::new();
        let ghost mut lead: int = 0;
        if !text.as_str().is_empty() {
            parts.push(ContentPart::Text(text));
            proof {
                lead = 1;
            }
        }
        proof {
            assert(parts.deep_view() =~= all.take(lead));
        }
        let mut i: usize = 0;
        while i < images.len()
            invariant
                i <= images@.len(),
                given == images.deep_view(),
                all == parts_of(said, given),
                lead == if said.len() > 0 { 1int } else { 0int },
                parts.deep_view() == all.take(lead + i),
            decreases images@.len() - i,
        {
            let ghost before = parts.deep_view();
            let part = ContentPart::Image {
                data_base64: images[i].data_base64.clone(),
                mime_type: images[i].mime_type.clone(),
            };
            let ghost pushed = part@;
            parts.push(part);
            proof {
                assert(given[i as int] == images@[i as int]@);
                assert(all[lead + i] == pushed);
                assert(parts.deep_view() =~= before.push(pushed));
                assert(all.take(lead + i + 1) =~= all.take(lead + i).push(all[lead + i]));
            }
            i = i + 1;
        }
        proof {
            assert(all.take(lead + i) =~= all);
        }
        ProviderMessage { role: "user".to_string(), content: MessageContent::Multi(parts), tool_call_id: None }
    }

    /// A message of the model.
    pub fn assistant(content: &str) -> (r: Self)
        ensures
            r@ == ProviderMessageView::plain("assistant"@, content@),
    {
        ProviderMessage {
            role: "assistant".to_string(),
            content: MessageContent::Text(content.to_string()),
            tool_call_id: None,
        }
    }

    /// The role and the content, in the format of OpenAI.
    pub fn to_openai_input(&self) -> (r: Json)
        ensures
            r@ == self@.openai_input(),
    {
        object2("role", Json::text(self.role.as_str()), "content", self.content.to_openai_content_value())
    }

    /// The message of a chat, in the format of OpenAI.
    pub fn to_openai_chat_message(&self) -> (r: Json)
        ensures
            r@ == self@.openai_chat(),
    {
        match &self.tool_call_id {
            Some(id) => object3(
                "role",
                Json::text(self.role.as_str()),
                "content",
                self.content.to_openai_content_value(),
                "tool_call_id",
                Json::text(id.as_str()),
            ),
            None => self.to_openai_input(),
        }
    }

    /// The message in the format of Anthropic.
    pub fn to_anthropic_message(&self) -> (r: Json)
        ensures
            r@ == self@.anthropic(),
    {
        object2("role", Json::text(self.role.as_str()), "content", self.content.to_anthropic_content_value())
    }
}

/// The machine that the client runs on.
#[derive(Debug, PartialEq, Eq)]
pub struct HostContext {
    pub os: String,
    pub arch: String,
}

/// The lines of the system message.
pub open spec fn system_lines(os: Seq<char>, arch: Seq<char>, time: Seq<char>, cwd: Option<Seq<char>>) -> Seq<Seq<char>> {
    let head = seq![
        "You are an AI coding assistant running inside Warp, the AI terminal and code editor."@,
        "Operating system: "@ + os + " ("@ + arch + ")"@,
        "Current time: "@ + time,
    ];
    let place = match cwd {
        Some(path) => seq!["Working directory: "@ + path],
        None => Seq::empty(),
    };
    head + place + seq![
        "You help the user with coding tasks: writing, editing, debugging, and explaining code. When writing commands or file paths, use the correct syntax for the user's operating system."@,
    ]
}

/// The system message: what the model is for and where it runs.
pub open spec fn system_text(os: Seq<char>, arch: Seq<char>, time: Seq<char>, cwd: Option<Seq<char>>) -> Seq<char> {
    text::joined(system_lines(os, arch, time, cwd), "\n"@)
}

/// The system message at a time that is given as a text.
pub fn system_message_at(host: &HostContext, time: &str, cwd: Option<&str>) -> (r: String)
    ensures
        r@ == system_text(host.os@, host.arch@, time@, json::opt_str(cwd)),
{
    let mut lines: Vec<String> = Vec::new();
    lines.push(
        "You are an AI coding assistant running inside Warp, the AI terminal and code editor.".to_string(),
    );
    let mut system = cat("Operating system: ", host.os.as_str());
    system = cat(system.as_str(), " (");
    system = cat(system.as_str(), host.arch.as_str());
    system = cat(system.as_str(), ")");
    lines.push(system);
    lines.push(cat("Current time: ", time));
    match cwd {
        Some(path) => lines.push(cat("Working directory: ", path)),
        None => {},
    }
    lines.push(
        "You help the user with coding tasks: writing, editing, debugging, and explaining code. When writing commands or file paths, use the correct syntax for the user's operating system.".to_string(),
    );
    proof {
        assert(lines.deep_view() =~= system_lines(host.os@, host.arch@, time@, json::opt_str(cwd)));
    }
    join(&lines, "\n")
}

/// The system message now.
pub fn build_system_message(host: &HostContext, cwd: Option<&str>) -> (r: Option<String>)
    ensures
        r matches Some(message) && exists|now: TimestampView|
            message@ == system_text(
                host.os@,
                host.arch@,
                #[trigger] clock::formatted_utc(now, PROMPT_TIME_PATTERN@),
                json::opt_str(cwd),
            ),
{
    let time = prompt_time();
    Some(system_message_at(host, time.as_str(), cwd))
}

/// The messages of an exchange: what the user said and what the model answered.
pub open spec fn exchange_messages(exchange: AgentExchangeSnapshotView) -> Seq<ProviderMessageView> {
    seq![
        ProviderMessageView::user_with_images(exchange.user_query, exchange.user_images),
        ProviderMessageView::plain("assistant"@, exchange.assistant_text),
    ]
}

/// The messages of the earlier exchanges.
pub open spec fn history_messages(history: Seq<AgentExchangeSnapshotView>) -> Seq<ProviderMessageView>
    decreases history.len(),
{
    if history.len() == 0 {
        Seq::empty()
    } else {
        history_messages(history.drop_last()) + exchange_messages(history.last())
    }
}

/// The messages of a conversation: the system message, the earlier exchanges,
/// what the user says now.
pub open spec fn conversation_messages(
    system: Seq<char>,
    history: Seq<AgentExchangeSnapshotView>,
    query: Seq<char>,
    images: Seq<SerializedImageView>,
) -> Seq<ProviderMessageView> {
    (seq![ProviderMessageView::plain("system"@, system)] + history_messages(history)).push(
        ProviderMessageView::user_with_images(query, images),
    )
}

/// The messages of a conversation with this system message.
pub fn conversation_with_system(
    system: String,
    history: &[AgentExchangeSnapshot],
    current_query: String,
    current_images: Vec<SerializedImage>,
) -> (r: Vec<ProviderMessage>)
    ensures
        r.deep_view() == conversation_messages(
            system@,
            history.deep_view(),
            current_query@,
            current_images.deep_view(),
        ),
{
    let mut messages: Vec<ProviderMessage> = Vec::new();
    let ghost all = history.deep_view();
    let ghost first = seq![ProviderMessageView::plain("system"@, system@)];
    messages.push(
        ProviderMessage { role: "system".to_string(), content: MessageContent::Text(system), tool_call_id: None },
    );
    proof {
        assert(messages.deep_view() =~= first + history_messages(all.take(0)));
    }
    let mut i: usize = 0;
    while i < history.len()
        invariant
            i <= history@.len(),
            all == history.deep_view(),
            messages.deep_view() == first + history_messages(all.take(i as int)),
        decreases history@.len() - i,
    {
        let ghost before = messages.deep_view();
        let question = ProviderMessage::user_with_images(
            history[i].user_query.clone(),
            clone_images(&history[i].user_images),
        );
        let answer = ProviderMessage::assistant(history[i].assistant_text.as_str());
        let ghost said = question@;
        let ghost answered = answer@;
        messages.push(question);
        messages.push(answer);
        proof {
            assert(all[i as int] == history@[i as int]@);
            assert(all.take(i + 1).drop_last() =~= all.take(i as int));
            assert(all.take(i + 1).last() == all[i as int]);
            assert(messages.deep_view() =~= before.push(said).push(answered));
            assert(exchange_messages(all[i as int]) =~= seq![said, answered]);
            assert(messages.deep_view() =~= first + history_messages(all.take(i + 1)));
        }
        i = i + 1;
    }
    let ghost before = messages.deep_view();
    let current = ProviderMessage::user_with_images(current_query, current_images);
    let ghost said = current@;
    messages.push(current);
    proof {
        assert(all.take(i as int) =~= all);
        assert(messages.deep_view() =~= before.push(said));
    }
    messages
}

/// The messages of a conversation now.
pub fn build_conversation_messages(
    _provider: &ResolvedProvider,
    host: &HostContext,
    cwd: Option<&str>,
    history: &[AgentExchangeSnapshot],
    current_query: String,
    current_images: Vec<SerializedImage>,
) -> (r: Vec<ProviderMessage>)
    ensures
        exists|now: TimestampView|
            r.deep_view() == conversation_messages(
                system_text(
                    host.os@,
                    host.arch@,
                    #[trigger] clock::formatted_utc(now, PROMPT_TIME_PATTERN@),
                    json::opt_str(cwd),
                ),
                history.deep_view(),
                current_query@,
                current_images.deep_view(),
            ),
{
    let time = prompt_time();
    let system = system_message_at(host, time.as_str(), cwd);
    conversation_with_system(system, history, current_query, current_images)
}

/// A conversation starts with its one system message, ends with what the user
/// says now, and between them every user message is followed by an answer.
pub proof fn law_conversation_alternates(
    system: Seq<char>,
    history: Seq<AgentExchangeSnapshotView>,
    query: Seq<char>,
    images: Seq<SerializedImageView>,
)
    ensures
        ({
            let messages = conversation_messages(system, history, query, images);
            &&& messages.len() == 2 * history.len() + 2
            &&& messages[0] == ProviderMessageView::plain("system"@, system)
            &&& messages.last() == ProviderMessageView::user_with_images(query, images)
            &&& forall|k: int|
                0 <= k < history.len() ==> {
                    &&& messages[2 * k + 1] == ProviderMessageView::user_with_images(
                        (#[trigger] history[k]).user_query,
                        history[k].user_images,
                    )
                    &&& messages[2 * k + 2] == ProviderMessageView::plain("assistant"@, history[k].assistant_text)
                }
        }),
{
    lemma_history_messages(history);
    let past = history_messages(history);
    let messages = conversation_messages(system, history, query, images);
    assert forall|k: int| 0 <= k < history.len() implies {
        &&& messages[2 * k + 1] == ProviderMessageView::user_with_images(
            (#[trigger] history[k]).user_query,
            history[k].user_images,
        )
        &&& messages[2 * k + 2] == ProviderMessageView::plain("assistant"@, history[k].assistant_text)
    } by {
        assert(messages[2 * k + 1] == past[2 * k]);
        assert(messages[2 * k + 2] == past[2 * k + 1]);
    }
}

/// Each exchange has two messages.
proof fn lemma_history_messages(history: Seq<AgentExchangeSnapshotView>)
    ensures
        history_messages(history).len() == 2 * history.len(),
        forall|k: int|
            0 <= k < history.len() ==> {
                &&& history_messages(history)[2 * k] == ProviderMessageView::user_with_images(
                    (#[trigger] history[k]).user_query,
                    history[k].user_images,
                )
                &&& history_messages(history)[2 * k + 1] == ProviderMessageView::plain(
                    "assistant"@,
                    history[k].assistant_text,
                )
            },
    decreases history.len(),
{
    if history.len() > 0 {
        let front = history.drop_last();
        lemma_history_messages(front);
        assert forall|k: int| 0 <= k < history.len() implies {
            &&& history_messages(history)[2 * k] == ProviderMessageView::user_with_images(
                (#[trigger] history[k]).user_query,
                history[k].user_images,
            )
            &&& history_messages(history)[2 * k + 1] == ProviderMessageView::plain(
                "assistant"@,
                history[k].assistant_text,
            )
        } by {
            if k < front.len() {
                assert(front[k] == history[k]);
                assert(history_messages(history)[2 * k] == history_messages(front)[2 * k]);
                assert(history_messages(history)[2 * k + 1] == history_messages(front)[2 * k + 1]);
            }
        }
    }
}

/// A part of a message holds its text or its image, where each provider looks for
/// them.
pub proof fn law_parts_are_written_in_full(part: ContentPartView)
    ensures
        part matches ContentPartView::Text(t) ==> {
            &&& part.openai().str_at("type"@) == Some("text"@)
            &&& part.openai().str_at("text"@) == Some(t)
            &&& part.anthropic().str_at("type"@) == Some("text"@)
            &&& part.anthropic().str_at("text"@) == Some(t)
        },
        part matches ContentPartView::Image { data_base64, mime_type } ==> {
            &&& part.openai().str_at("type"@) == Some("image_url"@)
            &&& part.openai().str_in("image_url"@, "url"@) == Some("data:"@ + mime_type + ";base64,"@ + data_base64)
            &&& part.anthropic().str_at("type"@) == Some("image"@)
            &&& part.anthropic().str_in("source"@, "type"@) == Some("base64"@)
            &&& part.anthropic().str_in("source"@, "media_type"@) == Some(mime_type)
            &&& part.anthropic().str_in("source"@, "data"@) == Some(data_base64)
        },
{
    reveal_strlit("type");
    reveal_strlit("text");
    reveal_strlit("image_url");
    reveal_strlit("source");
    reveal_strlit("media_type");
    reveal_strlit("data");
    assert("type"@.len() == 4 && "type"@[1] == 'y');
    assert("text"@.len() == 4 && "text"@[1] == 'e');
    assert("image_url"@.len() == 9);
    assert("source"@.len() == 6);
    assert("media_type"@.len() == 10);
    assert("data"@.len() == 4 && "data"@[1] == 'a');
    reveal_with_fuel(json::member, 4);
}

/// A message in a request has its own role and its own content: the text as it
/// stands, or its parts in their order. In a chat it names the tool call that it
/// answers, where it answers one.
pub proof fn law_messages_are_written_in_full(message: ProviderMessageView)
    ensures
        message.openai_input().str_at("role"@) == Some(message.role),
        message.openai_chat().str_at("role"@) == Some(message.role),
        message.anthropic().str_at("role"@) == Some(message.role),
        message.openai_chat().str_at("tool_call_id"@) == message.tool_call_id,
        message.content matches MessageContentView::Text(t) ==> {
            &&& message.openai_input().str_at("content"@) == Some(t)
            &&& message.openai_chat().str_at("content"@) == Some(t)
            &&& message.anthropic().str_at("content"@) == Some(t)
        },
        message.content matches MessageContentView::Multi(parts) ==> {
            let openai = message.openai_input().array_at("content"@);
            let chat = message.openai_chat().array_at("content"@);
            let anthropic = message.anthropic().array_at("content"@);
            &&& openai is Some && chat == openai && anthropic is Some
            &&& openai->0.len() == parts.len()
            &&& anthropic->0.len() == parts.len()
            &&& forall|i: int|
                0 <= i < parts.len() ==> openai->0[i] == (#[trigger] parts[i]).openai() && anthropic->0[i]
                    == parts[i].anthropic()
        },
{
    lemma_message_names();
    reveal_with_fuel(json::member, 4);
}

/// The names of the members of a message are told apart.
pub proof fn lemma_message_names()
    ensures
        "role"@ != "content"@,
        "role"@ != "tool_call_id"@,
        "content"@ != "tool_call_id"@,
{
    reveal_strlit("role");
    reveal_strlit("content");
    reveal_strlit("tool_call_id");
    assert("role"@.len() == 4);
    assert("content"@.len() == 7);
    assert("tool_call_id"@.len() == 12);
}

/// What the user says comes with all the images, in their order, behind the text;
/// an empty text is left out beside images, and only there.
pub proof fn law_user_messages_hold_text_and_images(text: Seq<char>, images: Seq<SerializedImageView>)
    ensures
        ({
            let message = ProviderMessageView::user_with_images(text, images);
            let lead: int = if text.len() > 0 {
                1
            } else {
                0
            };
            &&& message.role == "user"@
            &&& message.tool_call_id is None
            &&& images.len() == 0 ==> message.content == MessageContentView::Text(text)
            &&& images.len() > 0 ==> (message.content matches MessageContentView::Multi(parts) && {
                &&& parts.len() == lead + images.len()
                &&& lead == 1 ==> parts[0] == ContentPartView::Text(text)
                &&& forall|i: int|
                    0 <= i < images.len() ==> parts[lead + i] == (ContentPartView::Image {
                        data_base64: (#[trigger] images[i]).data_base64,
                        mime_type: images[i].mime_type,
                    })
            })
        }),
{
}

/// The system message tells the model the operating system, the architecture and
/// the time, each in a line of its own, and the working directory where there is
/// one.
pub proof fn law_system_message_tells_where_it_runs(
    os: Seq<char>,
    arch: Seq<char>,
    time: Seq<char>,
    cwd: Option<Seq<char>>,
)
    ensures
        ({
            let place = match cwd {
                Some(path) => "\nWorking directory: "@ + path,
                None => Seq::empty(),
            };
            exists|opening: Seq<char>, closing: Seq<char>|
                #![trigger opening + closing]
                opening.len() > 0 && closing.len() > 0 && system_text(os, arch, time, cwd) == opening
                    + "\nOperating system: "@ + os + " ("@ + arch + ")"@ + "\nCurrent time: "@ + time + place + "\n"@
                    + closing
        }),
{
    reveal_with_fuel(text::joined, 6);
    let opening = "You are an AI coding assistant running inside Warp, the AI terminal and code editor."@;
    let closing =
        "You help the user with coding tasks: writing, editing, debugging, and explaining code. When writing commands or file paths, use the correct syntax for the user's operating system."@;
    reveal_strlit("You are an AI coding assistant running inside Warp, the AI terminal and code editor.");
    reveal_strlit(
        "You help the user with coding tasks: writing, editing, debugging, and explaining code. When writing commands or file paths, use the correct syntax for the user's operating system.",
    );
    reveal_strlit("\n");
    reveal_strlit("Operating system: ");
    reveal_strlit("\nOperating system: ");
    reveal_strlit("Current time: ");
    reveal_strlit("\nCurrent time: ");
    reveal_strlit("Working directory: ");
    reveal_strlit("\nWorking directory: ");
    assert("\nOperating system: "@ =~= "\n"@ + "Operating system: "@);
    assert("\nCurrent time: "@ =~= "\n"@ + "Current time: "@);
    assert("\nWorking directory: "@ =~= "\n"@ + "Working directory: "@);
    let system = "Operating system: "@ + os + " ("@ + arch + ")"@;
    let clock = "Current time: "@ + time;
    let lines = system_lines(os, arch, time, cwd);
    let place = match cwd {
        Some(path) => "\nWorking directory: "@ + path,
        None => Seq::empty(),
    };
    match cwd {
        Some(path) => {
            let folder = "Working directory: "@ + path;
            assert(lines =~= seq![opening, system, clock, folder, closing]);
            assert(lines.drop_last() =~= seq![opening, system, clock, folder]);
            assert(lines.drop_last().drop_last() =~= seq![opening, system, clock]);
            assert(lines.drop_last().drop_last().drop_last() =~= seq![opening, system]);
            assert(lines.drop_last().drop_last().drop_last().drop_last() =~= seq![opening]);
        },
        None => {
            assert(lines =~= seq![opening, system, clock, closing]);
            assert(lines.drop_last() =~= seq![opening, system, clock]);
            assert(lines.drop_last().drop_last() =~= seq![opening, system]);
            assert(lines.drop_last().drop_last().drop_last() =~= seq![opening]);
        },
    }
    assert((opening + closing).len() > 0);
    assert(system_text(os, arch, time, cwd) =~= opening + "\nOperating system: "@ + os + " ("@ + arch + ")"@
        + "\nCurrent time: "@ + time + place + "\n"@ + closing);
}

} // verus!
