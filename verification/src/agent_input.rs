//! What the user asks of the agent.
use vstd::prelude::*;
use vstd::string::StringExecFns;

use crate::conversation::{SerializedImage, SerializedImageView};
use crate::text;
use crate::text::{cat, join};

verus! {

/// Something that goes with an input.
#[derive(Debug)]
pub enum AgentContext {
    /// A Base64-encoded image.
    Image { data: String, mime_type: String },
    /// Anything else.
    Other,
}

/// What an [`AgentContext`] is.
pub enum AgentContextView {
    Image { data: Seq<char>, mime_type: Seq<char> },
    Other,
}

impl DeepView for AgentContext {
    type V = AgentContextView;

    open spec fn deep_view(&self) -> AgentContextView {
        match self {
            AgentContext::Image { data, mime_type } => AgentContextView::Image { data: data@, mime_type: mime_type@ },
            AgentContext::Other => AgentContextView::Other,
        }
    }
}

impl View for AgentContext {
    type V = AgentContextView;

    open spec fn view(&self) -> AgentContextView {
        self.deep_view()
    }
}

/// What an input asks for.
#[derive(Debug)]
pub enum AgentRequest {
    /// A query that the user typed.
    UserQuery { query: String, has_attachments: bool, is_normal_mode: bool, context: Vec<AgentContext> },
    /// A query for a code change.
    AutoCodeDiffQuery { query: String, context: Vec<AgentContext> },
    /// Comments on code.
    CodeReview { comments: Vec<String> },
    /// A skill, with what the user typed for it.
    InvokeSkill { skill_name: String, user_query: Option<String>, context: Vec<AgentContext> },
    /// A run that was started in the background.
    StartFromAmbientRunPrompt { ambient_run_id: String, runtime_skill: Option<String>, context: Vec<AgentContext> },
    /// Anything else: no query can be made of it.
    Other,
}

/// What an [`AgentRequest`] is.
pub enum AgentRequestView {
    UserQuery { query: Seq<char>, has_attachments: bool, is_normal_mode: bool, context: Seq<AgentContextView> },
    AutoCodeDiffQuery { query: Seq<char>, context: Seq<AgentContextView> },
    CodeReview { comments: Seq<Seq<char>> },
    InvokeSkill { skill_name: Seq<char>, user_query: Option<Seq<char>>, context: Seq<AgentContextView> },
    StartFromAmbientRunPrompt {
        ambient_run_id: Seq<char>,
        runtime_skill: Option<Seq<char>>,
        context: Seq<AgentContextView>,
    },
    Other,
}

impl View for AgentRequest {
    type V = AgentRequestView;

    open spec fn view(&self) -> AgentRequestView {
        match self {
            AgentRequest::UserQuery { query, has_attachments, is_normal_mode, context } => AgentRequestView::UserQuery {
                query: query@,
                has_attachments: *has_attachments,
                is_normal_mode: *is_normal_mode,
                context: context.deep_view(),
            },
            AgentRequest::AutoCodeDiffQuery { query, context } => AgentRequestView::AutoCodeDiffQuery {
                query: query@,
                context: context.deep_view(),
            },
            AgentRequest::CodeReview { comments } => AgentRequestView::CodeReview { comments: comments.deep_view() },
            AgentRequest::InvokeSkill { skill_name, user_query, context } => AgentRequestView::InvokeSkill {
                skill_name: skill_name@,
                user_query: user_query.deep_view(),
                context: context.deep_view(),
            },
            AgentRequest::StartFromAmbientRunPrompt { ambient_run_id, runtime_skill, context } => {
                AgentRequestView::StartFromAmbientRunPrompt {
                    ambient_run_id: ambient_run_id@,
                    runtime_skill: runtime_skill.deep_view(),
                    context: context.deep_view(),
                }
            },
            AgentRequest::Other => AgentRequestView::Other,
        }
    }
}

/// An input of the agent: what it asks for, and what of it is shown as the query
/// of the user.
#[derive(Debug)]
pub struct AgentInput {
    pub user_query: Option<String>,
    pub request: AgentRequest,
}

/// What an [`AgentInput`] is.
pub struct AgentInputView {
    pub user_query: Option<Seq<char>>,
    pub request: AgentRequestView,
}

impl DeepView for AgentInput {
    type V = AgentInputView;

    open spec fn deep_view(&self) -> AgentInputView {
        AgentInputView { user_query: self.user_query.deep_view(), request: self.request@ }
    }
}

impl View for AgentInput {
    type V = AgentInputView;

    open spec fn view(&self) -> AgentInputView {
        self.deep_view()
    }
}

/// The images in a context, in their order.
pub open spec fn images_of(context: Seq<AgentContextView>) -> Seq<SerializedImageView>
    decreases context.len(),
{
    if context.len() == 0 {
        Seq::empty()
    } else {
        match context.last() {
            AgentContextView::Image { data, mime_type } => images_of(context.drop_last()).push(
                SerializedImageView { data_base64: data, mime_type },
            ),
            AgentContextView::Other => images_of(context.drop_last()),
        }
    }
}

/// The query that is made of an input, with its images; nothing where none can
/// be made.
pub open spec fn query_of(request: AgentRequestView) -> Option<(Seq<char>, Seq<SerializedImageView>)> {
    match request {
        AgentRequestView::UserQuery { query, has_attachments, is_normal_mode, context } => {
            if !has_attachments && is_normal_mode {
                Some((query, images_of(context)))
            } else {
                None
            }
        },
        AgentRequestView::AutoCodeDiffQuery { query, context } => Some((query, images_of(context))),
        AgentRequestView::CodeReview { comments } => {
            let query = text::joined(comments, "\n\n"@);
            if query.len() == 0 {
                None
            } else {
                Some((query, Seq::empty()))
            }
        },
        AgentRequestView::InvokeSkill { skill_name, user_query, context } => {
            let query = match user_query {
                Some(typed) => if typed.len() > 0 {
                    skill_name + " "@ + typed
                } else {
                    skill_name
                },
                None => skill_name,
            };
            Some((query, images_of(context)))
        },
        AgentRequestView::StartFromAmbientRunPrompt { ambient_run_id, runtime_skill, context } => {
            let query = match runtime_skill {
                Some(skill) => "(ambient run: "@ + ambient_run_id + ") "@ + skill,
                None => "(ambient run: "@ + ambient_run_id + ")"@,
            };
            Some((query, images_of(context)))
        },
        AgentRequestView::Other => None,
    }
}

/// The query of the last input of which one can be made.
pub open spec fn latest_query(inputs: Seq<AgentInputView>) -> Option<(Seq<char>, Seq<SerializedImageView>)>
    decreases inputs.len(),
{
    if inputs.len() == 0 {
        None
    } else {
        match query_of(inputs.last().request) {
            Some(query) => Some(query),
            None => latest_query(inputs.drop_last()),
        }
    }
}

/// The query of the last input that is shown as one.
pub open spec fn latest_shown_query(inputs: Seq<AgentInputView>) -> Option<Seq<char>>
    decreases inputs.len(),
{
    if inputs.len() == 0 {
        None
    } else {
        match inputs.last().user_query {
            Some(query) => Some(query),
            None => latest_shown_query(inputs.drop_last()),
        }
    }
}

/// What a query with images is.
pub open spec fn query_view(query: Option<(String, Vec<SerializedImage>)>) -> Option<
    (Seq<char>, Seq<SerializedImageView>),
> {
    match query {
        Some((query, images)) => Some((query@, images.deep_view())),
        None => None,
    }
}

/// The images in a context.
pub fn extract_images_from_context(context: &[AgentContext]) -> (r: Vec<SerializedImage>)
    ensures
        r.deep_view() == images_of(context.deep_view()),
{
    let mut images: Vec<SerializedImage> = Vec::new();
    let ghost all = context.deep_view();
    proof {
        assert(images.deep_view() =~= images_of(all.take(0)));
    }
    let mut i: usize = 0;
    while i < context.len()
        invariant
            i <= context@.len(),
            all == context.deep_view(),
            images.deep_view() == images_of(all.take(i as int)),
        decreases context@.len() - i,
    {
        let ghost before = images.deep_view();
        proof {
            assert(all.take(i + 1).drop_last() =~= all.take(i as int));
            assert(all.take(i + 1).last() == context@[i as int]@);
        }
        match &context[i] {
            AgentContext::Image { data, mime_type } => {
                let image = SerializedImage { data_base64: data.clone(), mime_type: mime_type.clone() };
                let ghost pushed = image@;
                images.push(image);
                proof {
                    assert(images.deep_view() =~= before.push(pushed));
                }
            },
            AgentContext::Other => {},
        }
        i = i + 1;
    }
    proof {
        assert(all.take(i as int) =~= all);
    }
    images
}

/// The query that is made of an input, with its images.
pub fn direct_provider_query(request: &AgentRequest) -> (r: Option<(String, Vec<SerializedImage>)>)
    ensures
        query_view(r) == query_of(request@),
{
    match request {
        AgentRequest::UserQuery { query, has_attachments, is_normal_mode, context } => {
            if !*has_attachments && *is_normal_mode {
                Some((query.clone(), extract_images_from_context(context.as_slice())))
            } else {
                None
            }
        },
        AgentRequest::AutoCodeDiffQuery { query, context } => {
            Some((query.clone(), extract_images_from_context(context.as_slice())))
        },
        AgentRequest::CodeReview { comments } => {
            let query = join(comments, "\n\n");
            if query.as_str().is_empty() {
                None
            } else {
                let images: Vec<SerializedImage> = Vec::new();
                proof {
                    assert(images.deep_view() =~= Seq::<SerializedImageView>::empty());
                }
                Some((query, images))
            }
        },
        AgentRequest::InvokeSkill { skill_name, user_query, context } => {
            let mut query = skill_name.clone();
            match user_query {
                Some(typed) => {
                    if !typed.as_str().is_empty() {
                        query.append(" ");
                        query.append(typed.as_str());
                    }
                },
                None => {},
            }
            Some((query, extract_images_from_context(context.as_slice())))
        },
        AgentRequest::StartFromAmbientRunPrompt { ambient_run_id, runtime_skill, context } => {
            let mut query = cat("(ambient run: ", ambient_run_id.as_str());
            match runtime_skill {
                Some(skill) => {
                    query.append(") ");
                    query.append(skill.as_str());
                },
                None => {
                    query.append(")");
                },
            }
            Some((query, extract_images_from_context(context.as_slice())))
        },
        AgentRequest::Other => None,
    }
}

/// The query of the last input of which one can be made.
pub fn latest_direct_provider_query(inputs: &[AgentInput]) -> (r: Option<(String, Vec<SerializedImage>)>)
    ensures
        query_view(r) == latest_query(inputs.deep_view()),
{
    let ghost all = inputs.deep_view();
    proof {
        assert(all.take(all.len() as int) =~= all);
    }
    let mut i: usize = inputs.len();
    while i > 0
        invariant
            i <= inputs@.len(),
            all == inputs.deep_view(),
            latest_query(all) == latest_query(all.take(i as int)),
        decreases i,
    {
        proof {
            assert(all.take(i as int).last() == inputs@[i - 1]@);
            assert(all.take(i as int).drop_last() =~= all.take(i - 1));
        }
        i = i - 1;
        let query = direct_provider_query(&inputs[i].request);
        if query.is_some() {
            return query;
        }
    }
    None
}

/// The query of the last input that is shown as one.
pub fn latest_user_query(inputs: &[AgentInput]) -> (r: Option<String>)
    ensures
        r.deep_view() == latest_shown_query(inputs.deep_view()),
{
    let ghost all = inputs.deep_view();
    proof {
        assert(all.take(all.len() as int) =~= all);
    }
    let mut i: usize = inputs.len();
    while i > 0
        invariant
            i <= inputs@.len(),
            all == inputs.deep_view(),
            latest_shown_query(all) == latest_shown_query(all.take(i as int)),
        decreases i,
    {
        proof {
            assert(all.take(i as int).last() == inputs@[i - 1]@);
            assert(all.take(i as int).drop_last() =~= all.take(i - 1));
        }
        i = i - 1;
        match &inputs[i].user_query {
            Some(query) => {
                return Some(query.clone());
            },
            None => {},
        }
    }
    None
}

/// A later input with a query hides the earlier ones; one without a query hides
/// nothing.
pub proof fn law_latest_query_wins(inputs: Seq<AgentInputView>, input: AgentInputView)
    ensures
        latest_query(inputs.push(input)) == match query_of(input.request) {
            Some(query) => Some(query),
            None => latest_query(inputs),
        },
        latest_query(inputs) is None <==> forall|i: int|
            0 <= i < inputs.len() ==> query_of((#[trigger] inputs[i]).request) is None,
    decreases inputs.len(),
{
    assert(inputs.push(input).drop_last() =~= inputs);
    if inputs.len() > 0 {
        let front = inputs.drop_last();
        law_latest_query_wins(front, inputs.last());
        assert(inputs[inputs.len() - 1] == inputs.last());
        if query_of(inputs.last().request) is None {
            if latest_query(front) is None {
                assert forall|i: int| 0 <= i < inputs.len() implies query_of((#[trigger] inputs[i]).request) is None by {
                    if i < front.len() {
                        assert(front[i] == inputs[i]);
                    }
                }
            } else {
                let i = choose|i: int| 0 <= i < front.len() && query_of((#[trigger] front[i]).request) is Some;
                assert(inputs[i] == front[i]);
            }
        }
    }
}

/// The images of a query are those of its context, in their order, as they are;
/// nothing else in the context is one.
pub proof fn law_images_keep_their_order(context: Seq<AgentContextView>)
    ensures
        ({
            let shown = context.filter(|item: AgentContextView| item is Image);
            let images = images_of(context);
            &&& images.len() == shown.len()
            &&& forall|i: int|
                0 <= i < shown.len() ==> shown[i] == (AgentContextView::Image {
                    data: (#[trigger] images[i]).data_base64,
                    mime_type: images[i].mime_type,
                })
        }),
    decreases context.len(),
{
    reveal(Seq::filter);
    if context.len() > 0 {
        law_images_keep_their_order(context.drop_last());
    }
}

/// What the user typed is the query, as it stands, unless something is attached
/// to it or it is for another mode. A skill leads what was typed for it. Comments
/// are told one after the other, with an empty line between them; without any
/// there is no query.
pub proof fn law_queries_say_what_was_typed(
    query: Seq<char>,
    context: Seq<AgentContextView>,
    skill_name: Seq<char>,
    first: Seq<char>,
    second: Seq<char>,
)
    ensures
        query_of(
            AgentRequestView::UserQuery { query, has_attachments: false, is_normal_mode: true, context },
        ) matches Some(made) && made.0 == query && made.1 == images_of(context),
        query_of(AgentRequestView::UserQuery { query, has_attachments: true, is_normal_mode: true, context }) is None,
        query_of(AgentRequestView::UserQuery { query, has_attachments: false, is_normal_mode: false, context }) is None,
        query_of(AgentRequestView::UserQuery { query, has_attachments: true, is_normal_mode: false, context }) is None,
        query_of(AgentRequestView::AutoCodeDiffQuery { query, context }) matches Some(made) && made.0 == query && made.1
            == images_of(context),
        query_of(AgentRequestView::InvokeSkill { skill_name, user_query: None, context }) matches Some(made) && made.0
            == skill_name && made.1 == images_of(context),
        query.len() > 0 ==> (query_of(
            AgentRequestView::InvokeSkill { skill_name, user_query: Some(query), context },
        ) matches Some(made) && made.0 == skill_name + " "@ + query && made.1 == images_of(context)),
        query.len() == 0 ==> (query_of(
            AgentRequestView::InvokeSkill { skill_name, user_query: Some(query), context },
        ) matches Some(made) && made.0 == skill_name && made.1 == images_of(context)),
        query_of(
            AgentRequestView::StartFromAmbientRunPrompt {
                ambient_run_id: first,
                runtime_skill: Some(skill_name),
                context,
            },
        ) matches Some(made) && made.0 == "(ambient run: "@ + first + ") "@ + skill_name && made.1 == images_of(context),
        query_of(
            AgentRequestView::StartFromAmbientRunPrompt { ambient_run_id: first, runtime_skill: None, context },
        ) matches Some(made) && made.0 == "(ambient run: "@ + first + ")"@ && made.1 == images_of(context),
        query_of(AgentRequestView::CodeReview { comments: Seq::empty() }) is None,
        query_of(AgentRequestView::CodeReview { comments: seq![first, second] }) matches Some(made) && made.0 == first
            + "\n\n"@ + second && made.1.len() == 0,
        query_of(AgentRequestView::Other) is None,
{
    reveal_strlit("\n\n");
    reveal_with_fuel(text::joined, 3);
    assert(seq![first, second].drop_last() =~= seq![first]);
    assert((first + "\n\n"@ + second).len() >= 2);
}

/// The query that is shown is that of the last input that shows one.
pub proof fn law_latest_shown_query_wins(inputs: Seq<AgentInputView>, i: int)
    ensures
        0 <= i < inputs.len() && inputs[i].user_query is Some && (forall|j: int|
            i < j < inputs.len() ==> (#[trigger] inputs[j]).user_query is None) ==> latest_shown_query(inputs)
            == inputs[i].user_query,
        latest_shown_query(inputs) is None <==> forall|j: int|
            0 <= j < inputs.len() ==> (#[trigger] inputs[j]).user_query is None,
    decreases inputs.len(),
{
    if inputs.len() > 0 {
        let front = inputs.drop_last();
        law_latest_shown_query_wins(front, i);
        assert(inputs[inputs.len() - 1] == inputs.last());
        if inputs.last().user_query is None {
            if forall|j: int| 0 <= j < inputs.len() ==> (#[trigger] inputs[j]).user_query is None {
                assert forall|j: int| 0 <= j < front.len() implies (#[trigger] front[j]).user_query is None by {
                    assert(front[j] == inputs[j]);
                }
            }
            if latest_shown_query(inputs) is None {
                assert forall|j: int| 0 <= j < inputs.len() implies (#[trigger] inputs[j]).user_query is None by {
                    if j < front.len() {
                        assert(front[j] == inputs[j]);
                    }
                }
            }
            if 0 <= i < front.len() && forall|j: int| i < j < inputs.len() ==> (#[trigger] inputs[j]).user_query is None {
                assert(front[i] == inputs[i]);
                assert forall|j: int| i < j < front.len() implies (#[trigger] front[j]).user_query is None by {
                    assert(front[j] == inputs[j]);
                }
            }
        }
    }
}

} // verus!
