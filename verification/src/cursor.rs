//! Questions that Cursor asks its user, carried as elicitation forms.

use std::collections::BTreeMap;

use vstd::hash_set::StringHashSet;
use vstd::prelude::*;

use agent_client_protocol::schema::v1::CreateElicitationRequest;
use agent_client_protocol::schema::v1::CreateElicitationResponse;
use agent_client_protocol::schema::v1::ElicitationContentValue;
use agent_client_protocol::schema::v1::EnumOption;

use crate::protocol;
use crate::protocol::Answer;
use crate::protocol::AnswerModel;
use crate::protocol::Choice;
use crate::protocol::Form;
use crate::protocol::Mode;
use crate::protocol::MultiSelectProperty;
use crate::protocol::Property;
use crate::protocol::Reply;
use crate::protocol::Request;
use crate::protocol::StringProperty;

verus! {

/// The questions of one call of the `cursor/ask_question` method.
#[derive(Debug, Clone)]
pub struct CursorAskQuestionRequest {
    pub tool_call_id: String,
    pub title: Option<String>,
    pub questions: Vec<CursorQuestion>,
}

/// A question with the options to answer it.
#[derive(Debug, Clone)]
pub struct CursorQuestion {
    pub id: String,
    pub prompt: String,
    pub options: Vec<CursorQuestionOption>,
    pub allow_multiple: bool,
}

/// One option of a question.
#[derive(Debug, Clone)]
pub struct CursorQuestionOption {
    pub id: String,
    pub label: String,
}

/// The answer to a [`CursorAskQuestionRequest`].
#[derive(Debug, Clone)]
pub struct CursorAskQuestionResponse {
    pub outcome: CursorAskQuestionOutcome,
}

/// What became of the questions.
#[derive(Debug, Clone, PartialEq, Eq)]
pub enum CursorAskQuestionOutcome {
    Answered { answers: Vec<CursorQuestionAnswer> },
    Skipped,
    Cancelled,
}

/// The options that were selected for one question.
#[derive(Debug, Clone, PartialEq, Eq)]
pub struct CursorQuestionAnswer {
    pub question_id: String,
    pub selected_option_ids: Vec<String>,
}

impl CursorQuestion {
    /// Whether the question can be put to the user: it has an id, it has options, and no two of
    /// them have the same id.
    pub open spec fn well_posed(self) -> bool {
        &&& self.id@.len() > 0
        &&& self.options@.len() > 0
        &&& forall|i: int, j: int|
            0 <= i < j < self.options@.len() ==> self.options@[i].id@ != self.options@[j].id@
    }

    /// The options as choices of a form: the ids as values, the labels as titles.
    pub open spec fn choices(self) -> Seq<Choice> {
        Seq::new(
            self.options@.len(),
            |i: int|
                Choice {
                    value: self.options@[i].id@,
                    title: self.options@[i].label@,
                    description: None,
                    meta: None,
                },
        )
    }

    /// The property of a form that asks the question.
    pub open spec fn property(self) -> Property {
        if self.allow_multiple {
            Property::Texts(
                MultiSelectProperty {
                    title: Some(self.prompt@),
                    choices: Some(self.choices()),
                    plain: true,
                },
            )
        } else {
            Property::Text(
                StringProperty {
                    title: Some(self.prompt@),
                    choices: Some(self.choices()),
                    plain: true,
                },
            )
        }
    }

    /// The option ids that the content of a form selects for the question: a single text where one
    /// option is to be selected, a list of texts where several may be, and nothing otherwise.
    pub open spec fn selected(self, content: Map<Seq<char>, ElicitationContentValue>) -> Option<
        Seq<Seq<char>>,
    > {
        if !content.contains_key(self.id@) {
            None
        } else {
            match protocol::content(content[self.id@]) {
                AnswerModel::Text(text) if !self.allow_multiple => Some(seq![text]),
                AnswerModel::Texts(list) if self.allow_multiple => Some(list),
                _ => None,
            }
        }
    }
}

impl CursorAskQuestionRequest {
    /// The ids of the questions, in order.
    pub open spec fn ids(self) -> Seq<Seq<char>> {
        Seq::new(self.questions@.len(), |i: int| self.questions@[i].id@)
    }

    /// Whether the questions can be put to the user as one form: there is at least one, each is
    /// well posed, and no two have the same id.
    pub open spec fn unambiguous(self) -> bool {
        &&& self.questions@.len() > 0
        &&& forall|i: int|
            0 <= i < self.questions@.len() ==> (#[trigger] self.questions@[i]).well_posed()
        &&& self.ids().no_duplicates()
    }

    /// Whether a form asks exactly these questions: one property for each, under its id, all of
    /// them required, in the order of the questions.
    pub open spec fn asked_by(self, form: Form) -> bool {
        &&& form.title == protocol::optional_text(self.title)
        &&& form.properties.dom() == self.ids().to_set()
        &&& forall|i: int|
            0 <= i < self.questions@.len() ==> form.properties[#[trigger] self.ids()[i]]
                == self.questions@[i].property()
        &&& form.required == Some(self.ids())
        &&& form.description is None
        &&& form.meta is None
    }

    /// The message that goes with the form: the title, or a general one where there is none.
    pub open spec fn message(self) -> Seq<char> {
        match self.title {
            Some(title) => title@,
            None => if self.questions@.len() == 1 {
                "Cursor has a question"@
            } else {
                "Cursor has a few questions"@
            },
        }
    }

    /// Whether an elicitation request puts these questions to the user of a session.
    pub open spec fn posed_by(self, request: Request, session_id: Seq<char>) -> bool {
        &&& request.mode matches Mode::Form(form)
        &&& request.asks_in(session_id, form.schema)
        &&& self.asked_by(protocol::form(form.schema))
        &&& request.message == self.message()
        &&& request.meta is None
    }

    /// Whether the content of a form answers every question.
    pub open spec fn answerable(self, content: Map<Seq<char>, ElicitationContentValue>) -> bool {
        forall|i: int|
            0 <= i < self.questions@.len() ==> (#[trigger] self.questions@[i]).selected(content)
                is Some
    }

    /// Whether these are the answers that the content of a form gives: one for each question, in
    /// the order of the questions.
    pub open spec fn answered_by(
        self,
        answers: Seq<CursorQuestionAnswer>,
        content: Map<Seq<char>, ElicitationContentValue>,
    ) -> bool {
        &&& answers.len() == self.questions@.len()
        &&& forall|i: int|
            #![trigger answers[i]]
            0 <= i < answers.len() ==> {
                &&& answers[i].question_id@ == self.questions@[i].id@
                &&& self.questions@[i].selected(content) == Some(
                    protocol::texts(answers[i].selected_option_ids@),
                )
            }
    }

    /// Whether an outcome is the one that a reply of the user leads to: the answers where the form
    /// was accepted and answers every question, skipped where it was declined, and cancelled in
    /// all other cases.
    pub open spec fn settled_by(self, outcome: CursorAskQuestionOutcome, reply: Reply) -> bool {
        match reply {
            Reply::Accept(Some(content)) if self.answerable(
                protocol::content_entries(content@),
            ) => {
                &&& outcome matches CursorAskQuestionOutcome::Answered { answers }
                &&& self.answered_by(answers@, protocol::content_entries(content@))
            },
            Reply::Decline => outcome is Skipped,
            _ => outcome is Cancelled,
        }
    }

    /// The elicitation request that puts the questions to the user of a session, or nothing where
    /// the questions are ambiguous.
    pub fn to_elicitation_request(&self, session_id: &str) -> (created: Option<
        CreateElicitationRequest,
    >)
        ensures
            created is Some <==> self.unambiguous(),
            created matches Some(created) ==> self.posed_by(
                protocol::request(created),
                session_id@,
            ),
    {
        if self.questions.is_empty() {
            return None;
        }
        let mut question_ids = StringHashSet::new();
        let mut schema = protocol::title_schema(protocol::new_schema(), self.title.clone());

        for i in 0..self.questions.len()
            invariant
                question_ids@ == self.ids().take(i as int).to_set(),
                self.ids().take(i as int).no_duplicates(),
                forall|j: int| 0 <= j < i ==> (#[trigger] self.questions@[j]).well_posed(),
                protocol::form(schema).title == protocol::optional_text(self.title),
                protocol::form(schema).properties.dom() == self.ids().take(i as int).to_set(),
                forall|j: int|
                    0 <= j < i ==> protocol::form(schema).properties[#[trigger] self.ids()[j]]
                        == self.questions@[j].property(),
                protocol::form(schema).required == if i == 0 {
                    None::<Seq<Seq<char>>>
                } else {
                    Some(self.ids().take(i as int))
                },
                protocol::form(schema).description is None,
                protocol::form(schema).meta is None,
        {
            let question = &self.questions[i];
            proof {
                lemma_take_next(self.ids(), i as int);
            }
            if question.id.as_str().is_empty() || question.options.is_empty() || !question_ids.insert(
                question.id.clone(),
            ) {
                return None;
            }
            let options = match question.to_options() {
                Some(options) => options,
                None => {
                    return None;
                },
            };
            let property = if question.allow_multiple {
                protocol::multi_select_to_property(
                    protocol::title_multi_select_property(
                        protocol::new_multi_select_property(options),
                        question.prompt.clone(),
                    ),
                )
            } else {
                protocol::string_to_property(
                    protocol::offer_one_of(
                        protocol::title_string_property(
                            protocol::new_string_property(),
                            question.prompt.clone(),
                        ),
                        options,
                    ),
                )
            };
            schema = protocol::add_property(schema, question.id.clone(), property, true);
        }
        assert(self.ids().take(self.questions@.len() as int) =~= self.ids());
        let message = match &self.title {
            Some(title) => title.clone(),
            None => if self.questions.len() == 1 {
                "Cursor has a question".to_string()
            } else {
                "Cursor has a few questions".to_string()
            },
        };
        let mode = protocol::new_form_mode(
            protocol::new_session_scope(session_id.to_string()),
            schema,
        );
        Some(protocol::new_request(mode, message))
    }

    /// The response to Cursor once the user has replied to the elicitation request.
    pub fn response_from_elicitation(&self, response: CreateElicitationResponse) -> (answer:
        CursorAskQuestionResponse)
        ensures
            self.settled_by(answer.outcome, protocol::reply(response)),
    {
        self.response_from_reply(protocol::read_reply(response))
    }

    /// The response to Cursor that a reply of the user leads to.
    pub fn response_from_reply(&self, reply: Reply) -> (answer: CursorAskQuestionResponse)
        ensures
            self.settled_by(answer.outcome, reply),
    {
        let outcome = match reply {
            Reply::Accept(content) => {
                let content = match content {
                    Some(content) => content,
                    None => {
                        return CursorAskQuestionResponse::cancelled();
                    },
                };
                match self.answers_from_content(&content) {
                    Some(answers) => CursorAskQuestionOutcome::Answered { answers },
                    None => {
                        return CursorAskQuestionResponse::cancelled();
                    },
                }
            },
            Reply::Decline => CursorAskQuestionOutcome::Skipped,
            Reply::Cancel => CursorAskQuestionOutcome::Cancelled,
            Reply::Other => CursorAskQuestionOutcome::Cancelled,
        };
        CursorAskQuestionResponse { outcome }
    }

    /// The answers that the content of an accepted form gives, or nothing where it leaves a
    /// question open.
    pub fn answers_from_content(&self, content: &BTreeMap<String, ElicitationContentValue>) -> (r:
        Option<Vec<CursorQuestionAnswer>>)
        ensures
            r is Some <==> self.answerable(protocol::content_entries(content@)),
            r matches Some(answers) ==> self.answered_by(
                answers@,
                protocol::content_entries(content@),
            ),
    {
        let ghost entries = protocol::content_entries(content@);
        let mut answers: Vec<CursorQuestionAnswer> = Vec::new();
        for i in 0..self.questions.len()
            invariant
                entries == protocol::content_entries(content@),
                answers@.len() == i,
                forall|j: int|
                    0 <= j < i ==> (#[trigger] self.questions@[j]).selected(entries) is Some,
                forall|j: int|
                    #![trigger answers@[j]]
                    0 <= j < i ==> {
                        &&& answers@[j].question_id@ == self.questions@[j].id@
                        &&& self.questions@[j].selected(entries) == Some(
                            protocol::texts(answers@[j].selected_option_ids@),
                        )
                    },
        {
            let question = &self.questions[i];
            let value = match protocol::find_content(content, &question.id) {
                Some(value) => value,
                None => {
                    return None;
                },
            };
            let selected_option_ids = match protocol::read_content(value) {
                Answer::Text(text) if !question.allow_multiple => {
                    let ids = vec![text];
                    assert(protocol::texts(ids@) =~= seq![text@]);
                    ids
                },
                Answer::Texts(list) if question.allow_multiple => list,
                _ => {
                    return None;
                },
            };
            answers.push(
                CursorQuestionAnswer { question_id: question.id.clone(), selected_option_ids },
            );
        }
        Some(answers)
    }
}

impl CursorAskQuestionResponse {
    /// The response that the questions were cancelled.
    pub fn cancelled() -> (answer: Self)
        ensures
            answer.outcome is Cancelled,
    {
        CursorAskQuestionResponse { outcome: CursorAskQuestionOutcome::Cancelled }
    }
}

/// Taking one element more of a sequence adds that element, and repeats one exactly if it was among
/// those taken before.
proof fn lemma_take_next<A>(s: Seq<A>, i: int)
    requires
        0 <= i < s.len(),
    ensures
        s.take(i + 1) == s.take(i).push(s[i]),
        s.take(i + 1).to_set() == s.take(i).to_set().insert(s[i]),
        s.take(i).to_set().contains(s[i]) ==> !s.no_duplicates(),
        s.take(i).no_duplicates() && !s.take(i).to_set().contains(s[i]) ==> s.take(
            i + 1,
        ).no_duplicates(),
        forall|j: int| 0 <= j < i ==> s.take(i).to_set().contains(#[trigger] s[j]),
{
    let before = s.take(i);
    let after = s.take(i + 1);
    assert(after =~= before.push(s[i]));
    assert forall|x: A| after.to_set().contains(x) <==> before.to_set().insert(s[i]).contains(
        x,
    ) by {
        if before.contains(x) {
            let j = choose|j: int| 0 <= j < before.len() && before[j] == x;
            assert(after[j] == x);
        }
        assert(after[i] == s[i]);
    }
    assert(after.to_set() =~= before.to_set().insert(s[i]));
    assert forall|j: int| 0 <= j < i implies before.to_set().contains(#[trigger] s[j]) by {
        assert(before[j] == s[j]);
    }
    if before.to_set().contains(s[i]) {
        let j = choose|j: int| 0 <= j < before.len() && before[j] == s[i];
        assert(s[j] == s[i]);
    }
}

impl CursorQuestion {
    /// The options as options of a form, or nothing where two of them have the same id.
    fn to_options(&self) -> (options: Option<Vec<EnumOption>>)
        ensures
            options is Some <==> forall|i: int, j: int|
                0 <= i < j < self.options@.len() ==> self.options@[i].id@ != self.options@[j].id@,
            options matches Some(options) ==> protocol::choices(options@) == self.choices(),
    {
        let mut option_ids = StringHashSet::new();
        let mut options: Vec<EnumOption> = Vec::new();
        for i in 0..self.options.len()
            invariant
                options@.len() == i,
                forall|j: int|
                    0 <= j < i ==> protocol::choice(#[trigger] options@[j]) == self.choices()[j],
                forall|id: Seq<char>|
                    option_ids@.contains(id) <==> exists|j: int|
                        0 <= j < i && #[trigger] self.options@[j].id@ == id,
                forall|j: int, k: int|
                    0 <= j < k < i ==> self.options@[j].id@ != self.options@[k].id@,
        {
            let option = &self.options[i];
            if !option_ids.insert(option.id.clone()) {
                return None;
            }
            options.push(protocol::new_option(option.id.clone(), option.label.clone()));
        }
        assert(protocol::choices(options@) =~= self.choices());
        Some(options)
    }
}

/// Whether the content of a form gives every required property a value of its kind: a text where one
/// choice is to be made, a list of texts where several may be.
pub open spec fn fills(
    content: Map<Seq<char>, ElicitationContentValue>,
    form: Form,
) -> bool {
    form.required matches Some(names) ==> forall|k: int|
        #![trigger names[k]]
        0 <= k < names.len() ==> {
            &&& content.contains_key(names[k])
            &&& match form.properties[names[k]] {
                Property::Text(_) => protocol::content(content[names[k]]) is Text,
                Property::Texts(_) => protocol::content(content[names[k]]) is Texts,
                Property::Other => true,
            }
        }
}

/// Whether a text is the value of one of the choices.
pub open spec fn offers(choices: Option<Seq<Choice>>, text: Seq<char>) -> bool {
    choices matches Some(choices) && exists|c: int|
        0 <= c < choices.len() && (#[trigger] choices[c]).value == text
}

/// No option is invented: whatever property is on a form that asks the questions belongs to one of
/// them, is titled with its prompt, and offers its options and no others, in their order.
pub proof fn law_no_option_is_invented(
    asked: CursorAskQuestionRequest,
    form: Form,
    name: Seq<char>,
)
    requires
        asked.asked_by(form),
        form.properties.contains_key(name),
    ensures
        exists|i: int|
            0 <= i < asked.questions@.len() && (#[trigger] asked.questions@[i]).id@ == name
                && match form.properties[name] {
                Property::Text(property) => {
                    &&& !asked.questions@[i].allow_multiple
                    &&& property.title == Some(asked.questions@[i].prompt@)
                    &&& property.choices == Some(asked.questions@[i].choices())
                },
                Property::Texts(property) => {
                    &&& asked.questions@[i].allow_multiple
                    &&& property.title == Some(asked.questions@[i].prompt@)
                    &&& property.choices == Some(asked.questions@[i].choices())
                },
                Property::Other => false,
            },
{
    assert(asked.ids().to_set().contains(name));
    let i = choose|i: int| 0 <= i < asked.ids().len() && asked.ids()[i] == name;
    assert(asked.questions@[i].id@ == name);
    assert(form.properties[asked.ids()[i]] == asked.questions@[i].property());
}

/// What the form asks for is what the answers need: content answers every question exactly if it
/// fills a form that asks them.
pub proof fn law_filled_form_answers_every_question(
    asked: CursorAskQuestionRequest,
    form: Form,
    content: Map<Seq<char>, ElicitationContentValue>,
)
    requires
        asked.asked_by(form),
    ensures
        fills(content, form) <==> asked.answerable(content),
{
    let ids = asked.ids();
    if fills(content, form) {
        assert forall|i: int| 0 <= i < asked.questions@.len() implies (
        #[trigger] asked.questions@[i]).selected(content) is Some by {
            assert(content.contains_key(ids[i]));
            assert(form.properties[ids[i]] == asked.questions@[i].property());
        }
    }
    if asked.answerable(content) {
        assert forall|k: int| #![trigger ids[k]] 0 <= k < ids.len() implies {
            &&& content.contains_key(ids[k])
            &&& match form.properties[ids[k]] {
                Property::Text(_) => protocol::content(content[ids[k]]) is Text,
                Property::Texts(_) => protocol::content(content[ids[k]]) is Texts,
                Property::Other => true,
            }
        } by {
            assert(asked.questions@[k].selected(content) is Some);
            assert(form.properties[ids[k]] == asked.questions@[k].property());
        }
    }
}

/// A user who fills the form that was sent is answered for: where a request puts the questions to the
/// user and the user accepts with some content, the outcome is answered exactly if the content fills
/// the form of that request.
pub proof fn law_filled_form_is_answered(
    asked: CursorAskQuestionRequest,
    session_id: Seq<char>,
    request: Request,
    content: BTreeMap<String, ElicitationContentValue>,
    outcome: CursorAskQuestionOutcome,
)
    requires
        asked.posed_by(request, session_id),
        asked.settled_by(outcome, Reply::Accept(Some(content))),
    ensures
        request.mode matches Mode::Form(form) && (outcome is Answered <==> fills(
            protocol::content_entries(content@),
            protocol::form(form.schema),
        )),
{
    law_filled_form_answers_every_question(
        asked,
        protocol::form(request.mode->Form_0.schema),
        protocol::content_entries(content@),
    );
}

/// Answers come in the order of the questions, one for each and none besides, whatever order the
/// content has.
pub proof fn law_answers_follow_the_questions(
    asked: CursorAskQuestionRequest,
    answers: Seq<CursorQuestionAnswer>,
    content: Map<Seq<char>, ElicitationContentValue>,
)
    requires
        asked.answered_by(answers, content),
    ensures
        Seq::new(answers.len(), |i: int| answers[i].question_id@) == asked.ids(),
{
    assert(Seq::new(answers.len(), |i: int| answers[i].question_id@) =~= asked.ids());
}

/// Only the values under the ids of the questions matter: content that agrees on these answers the
/// same questions in the same way.
pub proof fn law_other_content_is_ignored(
    asked: CursorAskQuestionRequest,
    answers: Seq<CursorQuestionAnswer>,
    content: Map<Seq<char>, ElicitationContentValue>,
    other: Map<Seq<char>, ElicitationContentValue>,
)
    requires
        forall|i: int|
            #![trigger asked.questions@[i]]
            0 <= i < asked.questions@.len() ==> {
                let id = asked.questions@[i].id@;
                &&& content.contains_key(id) <==> other.contains_key(id)
                &&& content.contains_key(id) ==> content[id] == other[id]
            },
    ensures
        asked.answerable(content) <==> asked.answerable(other),
        asked.answered_by(answers, content) <==> asked.answered_by(answers, other),
{
    assert forall|i: int| 0 <= i < asked.questions@.len() implies (
    #[trigger] asked.questions@[i]).selected(content) == asked.questions@[i].selected(other) by {}
}

/// A user who picks among the offered choices picks options of the question: where every text of the
/// content is the value of a choice on the form, every selected id is the id of an option.
pub proof fn law_selected_ids_are_options(
    asked: CursorAskQuestionRequest,
    form: Form,
    answers: Seq<CursorQuestionAnswer>,
    content: Map<Seq<char>, ElicitationContentValue>,
    i: int,
    k: int,
)
    requires
        asked.asked_by(form),
        asked.answered_by(answers, content),
        0 <= i < answers.len(),
        0 <= k < answers[i].selected_option_ids@.len(),
        match (form.properties[answers[i].question_id@], protocol::content(
            content[answers[i].question_id@],
        )) {
            (Property::Text(property), AnswerModel::Text(text)) => offers(property.choices, text),
            (Property::Texts(property), AnswerModel::Texts(list)) => forall|l: int|
                0 <= l < list.len() ==> offers(property.choices, #[trigger] list[l]),
            _ => false,
        },
    ensures
        exists|o: int|
            0 <= o < asked.questions@[i].options@.len() && (
            #[trigger] asked.questions@[i].options@[o]).id@
                == answers[i].selected_option_ids@[k]@,
{
    let question = asked.questions@[i];
    let ids = protocol::texts(answers[i].selected_option_ids@);
    assert(asked.ids()[i] == question.id@);
    assert(form.properties[asked.ids()[i]] == question.property());
    assert(answers[i].question_id@ == question.id@);
    assert(question.selected(content) == Some(ids));
    assert(ids.len() == answers[i].selected_option_ids@.len());
    assert(ids[k] == answers[i].selected_option_ids@[k]@);
    if question.allow_multiple {
        assert(protocol::content(content[question.id@]) == AnswerModel::Texts(ids));
    } else {
        assert(protocol::content(content[question.id@]) == AnswerModel::Text(ids[0]));
        assert(ids.len() == 1);
    }
    let c = choose|c: int|
        0 <= c < question.choices().len() && (#[trigger] question.choices()[c]).value == ids[k];
    assert(question.options@[c].id@ == ids[k]);
}

/// The outcome tells what the user did: answered only where a form was accepted that answers every
/// question, skipped exactly where it was declined.
pub proof fn law_outcome_tells_the_reply(
    asked: CursorAskQuestionRequest,
    outcome: CursorAskQuestionOutcome,
    reply: Reply,
)
    requires
        asked.settled_by(outcome, reply),
    ensures
        outcome is Answered <==> (reply matches Reply::Accept(Some(content)) && asked.answerable(
            protocol::content_entries(content@),
        )),
        outcome is Skipped <==> reply is Decline,
{
}

/// Questions are put to the user exactly if nothing about them is ambiguous: there is a question,
/// every question has an id and options, no two questions have the same id, and no two options of one
/// question do.
pub proof fn law_only_ambiguous_questions_are_refused(
    asked: CursorAskQuestionRequest,
    session_id: &str,
    created: Option<CreateElicitationRequest>,
)
    requires
        call_ensures(
            CursorAskQuestionRequest::to_elicitation_request,
            (&asked, session_id),
            created,
        ),
    ensures
        created is Some <==> {
            &&& asked.questions@.len() > 0
            &&& forall|i: int|
                #![trigger asked.questions@[i]]
                0 <= i < asked.questions@.len() ==> asked.questions@[i].id@.len() > 0
                    && asked.questions@[i].options@.len() > 0
            &&& forall|i: int, j: int|
                #![trigger asked.questions@[i], asked.questions@[j]]
                0 <= i < j < asked.questions@.len() ==> asked.questions@[i].id@
                    != asked.questions@[j].id@
            &&& forall|i: int, o: int, p: int|
                #![trigger asked.questions@[i].options@[o], asked.questions@[i].options@[p]]
                0 <= i < asked.questions@.len() && 0 <= o < p < asked.questions@[i].options@.len()
                    ==> asked.questions@[i].options@[o].id@ != asked.questions@[i].options@[p].id@
        },
{
    let ids = asked.ids();
    if created is Some {
        assert forall|i: int, j: int|
            #![trigger asked.questions@[i], asked.questions@[j]]
            0 <= i < j < asked.questions@.len() implies asked.questions@[i].id@
            != asked.questions@[j].id@ by {
            assert(ids[i] != ids[j]);
        }
    }
}

/// The questions go to the session that asked them, as a form outside any tool call and without
/// metadata. The message is the title; without one it tells whether there is one question or more.
pub proof fn law_questions_go_to_their_session(
    asked: CursorAskQuestionRequest,
    session_id: &str,
    created: CreateElicitationRequest,
)
    requires
        call_ensures(
            CursorAskQuestionRequest::to_elicitation_request,
            (&asked, session_id),
            Some(created),
        ),
    ensures
        protocol::request(created).mode matches Mode::Form(mode) && mode.scope matches Some(scope)
            && scope.session_id == session_id@ && !scope.in_tool_call,
        protocol::request(created).meta is None,
        asked.title matches Some(title) ==> protocol::request(created).message == title@,
        asked.title is None && asked.questions@.len() == 1 ==> protocol::request(created).message
            == "Cursor has a question"@,
        asked.title is None && asked.questions@.len() != 1 ==> protocol::request(created).message
            == "Cursor has a few questions"@,
{
}

/// The form holds every question and nothing else: a property under the id of each question and
/// under no other name, and all of them required, in the order of the questions. Its title is that of
/// the questions.
pub proof fn law_form_holds_every_question(
    asked: CursorAskQuestionRequest,
    session_id: &str,
    created: CreateElicitationRequest,
    form: Form,
    name: Seq<char>,
)
    requires
        call_ensures(
            CursorAskQuestionRequest::to_elicitation_request,
            (&asked, session_id),
            Some(created),
        ),
        form == protocol::form(protocol::request(created).mode->Form_0.schema),
    ensures
        form.properties.contains_key(name) <==> exists|i: int|
            0 <= i < asked.questions@.len() && (#[trigger] asked.questions@[i]).id@ == name,
        form.required matches Some(names) && names.len() == asked.questions@.len() && forall|i: int|
            0 <= i < names.len() ==> #[trigger] names[i] == asked.questions@[i].id@,
        form.title is Some <==> asked.title is Some,
        asked.title matches Some(title) ==> form.title == Some(title@),
        form.description is None,
        form.meta is None,
{
    let ids = asked.ids();
    if form.properties.contains_key(name) {
        assert(ids.to_set().contains(name));
        let i = choose|i: int| 0 <= i < ids.len() && ids[i] == name;
        assert(asked.questions@[i].id@ == name);
    }
    assert forall|i: int|
        0 <= i < asked.questions@.len() && (
        #[trigger] asked.questions@[i]).id@ == name implies form.properties.contains_key(name) by {
        assert(ids[i] == name);
        assert(ids.to_set().contains(name));
    }
}

/// Every option of a question can be picked: the property under its id has the prompt as its title
/// and offers as many choices as there are options, each with the id and the label of the option at
/// its position. It takes several picks exactly if the question does.
pub proof fn law_form_offers_every_option(
    asked: CursorAskQuestionRequest,
    session_id: &str,
    created: CreateElicitationRequest,
    form: Form,
    i: int,
)
    requires
        call_ensures(
            CursorAskQuestionRequest::to_elicitation_request,
            (&asked, session_id),
            Some(created),
        ),
        form == protocol::form(protocol::request(created).mode->Form_0.schema),
        0 <= i < asked.questions@.len(),
    ensures
        match form.properties[asked.questions@[i].id@] {
            Property::Text(property) => {
                &&& !asked.questions@[i].allow_multiple
                &&& property.plain
                &&& property.title == Some(asked.questions@[i].prompt@)
                &&& property.choices matches Some(choices)
                &&& choices.len() == asked.questions@[i].options@.len()
                &&& forall|o: int|
                    #![trigger choices[o]]
                    0 <= o < asked.questions@[i].options@.len() ==> {
                        &&& choices[o].value == asked.questions@[i].options@[o].id@
                        &&& choices[o].title == asked.questions@[i].options@[o].label@
                        &&& choices[o].description is None
                        &&& choices[o].meta is None
                    }
            },
            Property::Texts(property) => {
                &&& asked.questions@[i].allow_multiple
                &&& property.plain
                &&& property.title == Some(asked.questions@[i].prompt@)
                &&& property.choices matches Some(choices)
                &&& choices.len() == asked.questions@[i].options@.len()
                &&& forall|o: int|
                    #![trigger choices[o]]
                    0 <= o < asked.questions@[i].options@.len() ==> {
                        &&& choices[o].value == asked.questions@[i].options@[o].id@
                        &&& choices[o].title == asked.questions@[i].options@[o].label@
                        &&& choices[o].description is None
                        &&& choices[o].meta is None
                    }
            },
            Property::Other => false,
        },
{
    assert(asked.ids()[i] == asked.questions@[i].id@);
    assert(form.properties[asked.ids()[i]] == asked.questions@[i].property());
}

/// Content gives answers exactly if it has a value of the right kind for every question: a list of
/// texts where several options may be selected, one text where it is one.
pub proof fn law_complete_content_gives_answers(
    asked: CursorAskQuestionRequest,
    content: BTreeMap<String, ElicitationContentValue>,
    given: Option<Vec<CursorQuestionAnswer>>,
)
    requires
        call_ensures(
            CursorAskQuestionRequest::answers_from_content,
            (&asked, &content),
            given,
        ),
    ensures
        given is Some <==> forall|i: int|
            #![trigger asked.questions@[i]]
            0 <= i < asked.questions@.len() ==> {
                &&& protocol::content_entries(content@).contains_key(asked.questions@[i].id@)
                &&& match protocol::content(
                    protocol::content_entries(content@)[asked.questions@[i].id@],
                ) {
                    AnswerModel::Texts(_) => asked.questions@[i].allow_multiple,
                    AnswerModel::Text(_) => !asked.questions@[i].allow_multiple,
                    _ => false,
                }
            },
{
    let entries = protocol::content_entries(content@);
    if given is Some {
        assert forall|i: int| #![trigger asked.questions@[i]] 0 <= i
            < asked.questions@.len() implies {
            &&& entries.contains_key(asked.questions@[i].id@)
            &&& match protocol::content(entries[asked.questions@[i].id@]) {
                AnswerModel::Texts(_) => asked.questions@[i].allow_multiple,
                AnswerModel::Text(_) => !asked.questions@[i].allow_multiple,
                _ => false,
            }
        } by {
            assert(asked.questions@[i].selected(entries) is Some);
        }
    }
}

/// Nothing that the user picked is lost, added or reordered: the answer to a question names it and
/// holds the whole list of texts that the content has under its id, or exactly the one text.
pub proof fn law_answers_hold_every_pick(
    asked: CursorAskQuestionRequest,
    content: BTreeMap<String, ElicitationContentValue>,
    answers: Vec<CursorQuestionAnswer>,
    i: int,
)
    requires
        call_ensures(
            CursorAskQuestionRequest::answers_from_content,
            (&asked, &content),
            Some(answers),
        ),
        0 <= i < asked.questions@.len(),
    ensures
        answers@.len() == asked.questions@.len(),
        answers@[i].question_id@ == asked.questions@[i].id@,
        match protocol::content(protocol::content_entries(content@)[asked.questions@[i].id@]) {
            AnswerModel::Texts(list) => {
                &&& asked.questions@[i].allow_multiple
                &&& answers@[i].selected_option_ids@.len() == list.len()
                &&& forall|k: int|
                    0 <= k < list.len() ==> (#[trigger] answers@[i].selected_option_ids@[k])@
                        == list[k]
            },
            AnswerModel::Text(text) => {
                &&& !asked.questions@[i].allow_multiple
                &&& answers@[i].selected_option_ids@.len() == 1
                &&& answers@[i].selected_option_ids@[0]@ == text
            },
            _ => false,
        },
{
    lemma_picks(asked, protocol::content_entries(content@), answers@, i);
}

/// What the answer to one question holds.
proof fn lemma_picks(
    asked: CursorAskQuestionRequest,
    content: Map<Seq<char>, ElicitationContentValue>,
    answers: Seq<CursorQuestionAnswer>,
    i: int,
)
    requires
        asked.answered_by(answers, content),
        0 <= i < asked.questions@.len(),
    ensures
        match protocol::content(content[asked.questions@[i].id@]) {
            AnswerModel::Texts(list) => {
                &&& asked.questions@[i].allow_multiple
                &&& answers[i].selected_option_ids@.len() == list.len()
                &&& forall|k: int|
                    0 <= k < list.len() ==> (#[trigger] answers[i].selected_option_ids@[k])@
                        == list[k]
            },
            AnswerModel::Text(text) => {
                &&& !asked.questions@[i].allow_multiple
                &&& answers[i].selected_option_ids@.len() == 1
                &&& answers[i].selected_option_ids@[0]@ == text
            },
            _ => false,
        },
{
    let ids = protocol::texts(answers[i].selected_option_ids@);
    assert(answers[i].question_id@ == asked.questions@[i].id@);
    assert(asked.questions@[i].selected(content) == Some(ids));
    assert(ids.len() == answers[i].selected_option_ids@.len());
    assert forall|k: int| 0 <= k < ids.len() implies (
    #[trigger] answers[i].selected_option_ids@[k])@ == ids[k] by {}
    if !asked.questions@[i].allow_multiple {
        let text = protocol::content(content[asked.questions@[i].id@])->Text_0;
        assert(ids == seq![text]);
        assert(ids[0] == text);
    }
}

/// Cursor learns what the user did, whether it is told the response or the reply in it: skipped
/// exactly if the form was declined, answered exactly if it was accepted with a value of the right
/// kind for every question, and cancelled in every other case.
pub proof fn law_cursor_learns_what_the_user_did(
    asked: CursorAskQuestionRequest,
    response: CreateElicitationResponse,
    reply: Reply,
    answer: CursorAskQuestionResponse,
)
    requires
        call_ensures(CursorAskQuestionRequest::response_from_reply, (&asked, reply), answer) || (
        reply == protocol::reply(response) && call_ensures(
            CursorAskQuestionRequest::response_from_elicitation,
            (&asked, response),
            answer,
        )),
    ensures
        answer.outcome is Skipped <==> reply is Decline,
        answer.outcome is Answered <==> (reply matches Reply::Accept(Some(content)) && forall|i: int|
            #![trigger asked.questions@[i]]
            0 <= i < asked.questions@.len() ==> {
                &&& protocol::content_entries(content@).contains_key(asked.questions@[i].id@)
                &&& match protocol::content(
                    protocol::content_entries(content@)[asked.questions@[i].id@],
                ) {
                    AnswerModel::Texts(_) => asked.questions@[i].allow_multiple,
                    AnswerModel::Text(_) => !asked.questions@[i].allow_multiple,
                    _ => false,
                }
            }),
{
    if let Reply::Accept(Some(content)) = reply {
        let entries = protocol::content_entries(content@);
        if answer.outcome is Answered {
            assert forall|i: int| #![trigger asked.questions@[i]] 0 <= i
                < asked.questions@.len() implies {
                &&& entries.contains_key(asked.questions@[i].id@)
                &&& match protocol::content(entries[asked.questions@[i].id@]) {
                    AnswerModel::Texts(_) => asked.questions@[i].allow_multiple,
                    AnswerModel::Text(_) => !asked.questions@[i].allow_multiple,
                    _ => false,
                }
            } by {
                assert(asked.questions@[i].selected(entries) is Some);
            }
        }
    }
}

/// An answered outcome holds, for every question in order, all that the user picked for it and
/// nothing else.
pub proof fn law_cursor_gets_every_pick(
    asked: CursorAskQuestionRequest,
    response: CreateElicitationResponse,
    content: BTreeMap<String, ElicitationContentValue>,
    answers: Vec<CursorQuestionAnswer>,
    answer: CursorAskQuestionResponse,
    i: int,
)
    requires
        call_ensures(
            CursorAskQuestionRequest::response_from_reply,
            (&asked, Reply::Accept(Some(content))),
            answer,
        ) || (protocol::reply(response) == Reply::Accept(Some(content)) && call_ensures(
            CursorAskQuestionRequest::response_from_elicitation,
            (&asked, response),
            answer,
        )),
        answer.outcome == (CursorAskQuestionOutcome::Answered { answers }),
        0 <= i < asked.questions@.len(),
    ensures
        answers@.len() == asked.questions@.len(),
        answers@[i].question_id@ == asked.questions@[i].id@,
        match protocol::content(protocol::content_entries(content@)[asked.questions@[i].id@]) {
            AnswerModel::Texts(list) => {
                &&& asked.questions@[i].allow_multiple
                &&& answers@[i].selected_option_ids@.len() == list.len()
                &&& forall|k: int|
                    0 <= k < list.len() ==> (#[trigger] answers@[i].selected_option_ids@[k])@
                        == list[k]
            },
            AnswerModel::Text(text) => {
                &&& !asked.questions@[i].allow_multiple
                &&& answers@[i].selected_option_ids@.len() == 1
                &&& answers@[i].selected_option_ids@[0]@ == text
            },
            _ => false,
        },
{
    lemma_picks(asked, protocol::content_entries(content@), answers@, i);
}

} // verus!
