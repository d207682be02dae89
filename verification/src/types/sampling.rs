//! Sampling: the server asks the client's model for a message.

use vstd::prelude::*;
use crate::error::SchemaError;
use crate::json::{
    avoids, collides, fields_wf, find, get, lemma_object_view, lemma_without_members, same_text,
    without, Fields, Json, JsonNumber, JsonView,
};
use crate::record::{
    field, group_record, group_writer, lemma_member_at, lemma_written_record, member, members_ok,
    no_members, opt_field, opt_member, present, read_field, read_opt_field, repeats, rest,
    valid_opt, with, write_field, write_opt_field, write_rest, JsonObject, Layout, Members,
    Record,
};
use crate::types::common::{ImageContent, ImageContentView, Role, TextContent, TextContentView};
use crate::wire::{Wire, WireSound};

verus! {

/// One message of a conversation to sample from.
#[derive(Debug, Clone)]
pub struct SamplingMessage {
    pub role: Role,
    pub content: SamplingContent,
}

/// [`SamplingMessage`] as specifications see it.
pub struct SamplingMessageView {
    pub role: Role,
    pub content: SamplingContentView,
}

impl DeepView for SamplingMessage {
    type V = SamplingMessageView;

    open spec fn deep_view(&self) -> SamplingMessageView {
        SamplingMessageView {
            role: self.role.deep_view(),
            content: self.content.deep_view(),
        }
    }
}

impl Record for SamplingMessage {
    open spec fn names() -> Set<Seq<char>> {
        set!["role"@, "content"@]
    }

    fn declares(key: &str) -> (b: bool) {
        same_text(key, "role") || same_text(key, "content")
    }
}

impl SamplingMessage {
    /// The declared fields of `v`, each with what is written for it.
    pub open spec fn members(v: SamplingMessageView) -> Members {
        Seq::empty()
            .push(member::<Role>("role"@, v.role))
            .push(member::<SamplingContent>("content"@, v.content))
    }

    /// The object that stands for `v`: its declared fields.
    #[verifier::opaque]
    pub open spec fn written(v: SamplingMessageView) -> JsonView {
        JsonView::Object(present(Self::members(v)))
    }

    /// What `j` is read as: an object in which no declared name occurs twice
    /// and every declared field reads; the first field that does not read
    /// gives the error. Other members are passed over.
    #[verifier::opaque]
    pub open spec fn read(j: JsonView) -> Result<SamplingMessageView, SchemaError> {
        match j {
            JsonView::Object(o) => {
                let role = field::<Role>(o, "role"@);
                let content = field::<SamplingContent>(o, "content"@);
                if collides(o, Self::names()) {
                    Err(SchemaError::FieldCollision)
                } else if role is Err {
                    Err(role->Err_0)
                } else if content is Err {
                    Err(content->Err_0)
                } else {
                    Ok(
                        SamplingMessageView {
                            role: role->Ok_0,
                            content: content->Ok_0,
                        },
                    )
                }
            },
            _ => Err(SchemaError::ParamsShapeMismatch),
        }
    }

    /// The declared fields of a valid value have names of their own and
    /// well-formed values.
    pub proof fn lemma_members(v: SamplingMessageView)
        requires
            Self::valid(v),
        ensures
            members_ok(Self::members(v), Self::names()),
    {
        broadcast use group_record;

        reveal_strlit("role");
        reveal_strlit("content");
        assert("role"@.len() == 4);
        assert("content"@.len() == 7);
        Role::lemma_round_trip(v.role);
        SamplingContent::lemma_round_trip(v.content);
    }
}

impl Wire for SamplingMessage {
    open spec fn valid(v: SamplingMessageView) -> bool {
        &&& Role::valid(v.role)
        &&& SamplingContent::valid(v.content)
    }

    open spec fn encode(v: SamplingMessageView) -> JsonView {
        Self::written(v)
    }

    open spec fn decode(j: JsonView) -> Result<SamplingMessageView, SchemaError> {
        Self::read(j)
    }

    fn to_json(&self) -> (j: Json) {
        let mut out = no_members();
        write_field::<Role>(&mut out, "role", &self.role);
        write_field::<SamplingContent>(&mut out, "content", &self.content);
        proof {
            broadcast use group_writer;

            reveal(SamplingMessage::written);
            lemma_object_view(out);
        }
        Json::Object(out)
    }

    fn from_json(j: &Json) -> (r: Result<SamplingMessage, SchemaError>) {
        proof {
            reveal(SamplingMessage::read);
        }
        match j {
            Json::Object(entries) => {
                proof {
                    lemma_object_view(*entries);
                }
                if repeats::<SamplingMessage>(entries) {
                    return Err(SchemaError::FieldCollision);
                }
                let role = read_field::<Role>(entries, "role")?;
                let content = read_field::<SamplingContent>(entries, "content")?;
                Ok(SamplingMessage { role, content })
            },
            _ => Err(SchemaError::ParamsShapeMismatch),
        }
    }

    proof fn lemma_round_trip(v: SamplingMessageView) {
        reveal(SamplingMessage::written);
        reveal(SamplingMessage::read);
        let m = Self::members(v);
        Self::lemma_members(v);
        lemma_written_record(m, Seq::empty(), Self::names());
        lemma_member_at(m, Self::names(), 0);
        lemma_member_at(m, Self::names(), 1);
        Role::lemma_round_trip(v.role);
        SamplingContent::lemma_round_trip(v.content);
        assert(present(m) + Seq::empty() =~= present(m));
    }
}

impl WireSound for SamplingMessage {
    proof fn lemma_decoded_valid(j: JsonView) {
        broadcast use group_record;

        reveal(SamplingMessage::written);
        reveal(SamplingMessage::read);
        let o = j->Object_0;
        Role::lemma_decoded_valid(get(o, "role"@)->Some_0);
        SamplingContent::lemma_decoded_valid(get(o, "content"@)->Some_0);
    }
}

impl Layout for SamplingMessage {
    open spec fn layout(v: SamplingMessageView) -> Members {
        Self::members(v)
    }

    open spec fn others(v: SamplingMessageView) -> Fields {
        Seq::empty()
    }

    proof fn lemma_layout(v: SamplingMessageView) {
        reveal(SamplingMessage::written);
        Self::lemma_members(v);
        assert(Self::layout(v) == Self::members(v));
        assert(Self::others(v) == Seq::<(Seq<char>, JsonView)>::empty());
        assert(fields_wf(Seq::<(Seq<char>, JsonView)>::empty()));
        assert(present(Self::members(v)) + Seq::empty() =~= present(Self::members(v)));
    }
}

/// A hint at which model to choose.
#[derive(Debug, Clone)]
pub struct ModelHint {
    pub name: Option<String>,
    pub extra: JsonObject,
}

/// [`ModelHint`] as specifications see it.
pub struct ModelHintView {
    pub name: Option<Seq<char>>,
    pub extra: Fields,
}

impl DeepView for ModelHint {
    type V = ModelHintView;

    open spec fn deep_view(&self) -> ModelHintView {
        ModelHintView {
            name: self.name.deep_view(),
            extra: self.extra.deep_view(),
        }
    }
}

impl Record for ModelHint {
    open spec fn names() -> Set<Seq<char>> {
        set!["name"@]
    }

    fn declares(key: &str) -> (b: bool) {
        same_text(key, "name")
    }
}

impl ModelHint {
    /// The declared fields of `v`, each with what is written for it.
    pub open spec fn members(v: ModelHintView) -> Members {
        Seq::empty()
            .push(opt_member::<String>("name"@, v.name))
    }

    /// The object that stands for `v`: its declared fields, then its other
    /// members.
    #[verifier::opaque]
    pub open spec fn written(v: ModelHintView) -> JsonView {
        JsonView::Object(present(Self::members(v)) + v.extra)
    }

    /// What `j` is read as: an object in which no declared name occurs twice
    /// and every declared field reads; the first field that does not read
    /// gives the error. The other members are kept.
    #[verifier::opaque]
    pub open spec fn read(j: JsonView) -> Result<ModelHintView, SchemaError> {
        match j {
            JsonView::Object(o) => {
                let name = opt_field::<String>(o, "name"@);
                if collides(o, Self::names()) {
                    Err(SchemaError::FieldCollision)
                } else if name is Err {
                    Err(name->Err_0)
                } else {
                    Ok(
                        ModelHintView {
                            name: name->Ok_0,
                            extra: without(o, Self::names()),
                        },
                    )
                }
            },
            _ => Err(SchemaError::ParamsShapeMismatch),
        }
    }

    /// The declared fields of a valid value have names of their own and
    /// well-formed values.
    pub proof fn lemma_members(v: ModelHintView)
        requires
            Self::valid(v),
        ensures
            members_ok(Self::members(v), Self::names()),
    {
        broadcast use group_record;

        reveal_strlit("name");
        assert("name"@.len() == 4);
        if v.name is Some {
            String::lemma_round_trip(v.name->Some_0);
        }
    }
}

impl Wire for ModelHint {
    open spec fn valid(v: ModelHintView) -> bool {
        &&& valid_opt::<String>(v.name)
        &&& fields_wf(v.extra)
        &&& avoids(v.extra, Self::names())
    }

    open spec fn encode(v: ModelHintView) -> JsonView {
        Self::written(v)
    }

    open spec fn decode(j: JsonView) -> Result<ModelHintView, SchemaError> {
        Self::read(j)
    }

    fn to_json(&self) -> (j: Json) {
        let mut out = no_members();
        write_opt_field::<String>(&mut out, "name", &self.name);
        write_rest(&mut out, &self.extra);
        proof {
            broadcast use group_writer;

            reveal(ModelHint::written);
            lemma_object_view(out);
        }
        Json::Object(out)
    }

    fn from_json(j: &Json) -> (r: Result<ModelHint, SchemaError>) {
        proof {
            reveal(ModelHint::read);
        }
        match j {
            Json::Object(entries) => {
                proof {
                    lemma_object_view(*entries);
                }
                if repeats::<ModelHint>(entries) {
                    return Err(SchemaError::FieldCollision);
                }
                let name = read_opt_field::<String>(entries, "name")?;
                Ok(ModelHint { name, extra: rest::<ModelHint>(entries) })
            },
            _ => Err(SchemaError::ParamsShapeMismatch),
        }
    }

    proof fn lemma_round_trip(v: ModelHintView) {
        reveal(ModelHint::written);
        reveal(ModelHint::read);
        let m = Self::members(v);
        Self::lemma_members(v);
        lemma_written_record(m, v.extra, Self::names());
        lemma_member_at(m, Self::names(), 0);
        if v.name is Some {
            String::lemma_round_trip(v.name->Some_0);
        }
    }
}

impl WireSound for ModelHint {
    proof fn lemma_decoded_valid(j: JsonView) {
        broadcast use group_record;

        reveal(ModelHint::written);
        reveal(ModelHint::read);
        let o = j->Object_0;
        if get(o, "name"@) is Some && get(o, "name"@) != Some(JsonView::Null) {
            String::lemma_decoded_valid(get(o, "name"@)->Some_0);
        }
        lemma_without_members(o, Self::names());
    }
}

impl Layout for ModelHint {
    open spec fn layout(v: ModelHintView) -> Members {
        Self::members(v)
    }

    open spec fn others(v: ModelHintView) -> Fields {
        v.extra
    }

    proof fn lemma_layout(v: ModelHintView) {
        reveal(ModelHint::written);
        Self::lemma_members(v);
    }
}

/// What the server would like of the model that is chosen.
#[derive(Debug, Clone)]
pub struct ModelPreferences {
    pub hints: Option<Vec<ModelHint>>,
    pub cost_priority: Option<JsonNumber>,
    pub speed_priority: Option<JsonNumber>,
    pub intelligence_priority: Option<JsonNumber>,
    pub extra: JsonObject,
}

/// [`ModelPreferences`] as specifications see it.
pub struct ModelPreferencesView {
    pub hints: Option<Seq<ModelHintView>>,
    pub cost_priority: Option<JsonNumber>,
    pub speed_priority: Option<JsonNumber>,
    pub intelligence_priority: Option<JsonNumber>,
    pub extra: Fields,
}

impl DeepView for ModelPreferences {
    type V = ModelPreferencesView;

    open spec fn deep_view(&self) -> ModelPreferencesView {
        ModelPreferencesView {
            hints: self.hints.deep_view(),
            cost_priority: self.cost_priority.deep_view(),
            speed_priority: self.speed_priority.deep_view(),
            intelligence_priority: self.intelligence_priority.deep_view(),
            extra: self.extra.deep_view(),
        }
    }
}

impl Record for ModelPreferences {
    open spec fn names() -> Set<Seq<char>> {
        set!["hints"@, "costPriority"@, "speedPriority"@, "intelligencePriority"@]
    }

    fn declares(key: &str) -> (b: bool) {
        same_text(key, "hints")
            || same_text(key, "costPriority")
            || same_text(key, "speedPriority")
            || same_text(key, "intelligencePriority")
    }
}

impl ModelPreferences {
    /// The declared fields of `v`, each with what is written for it.
    pub open spec fn members(v: ModelPreferencesView) -> Members {
        Seq::empty()
            .push(opt_member::<Vec<ModelHint>>("hints"@, v.hints))
            .push(opt_member::<JsonNumber>("costPriority"@, v.cost_priority))
            .push(opt_member::<JsonNumber>("speedPriority"@, v.speed_priority))
            .push(opt_member::<JsonNumber>("intelligencePriority"@, v.intelligence_priority))
    }

    /// The object that stands for `v`: its declared fields, then its other
    /// members.
    #[verifier::opaque]
    pub open spec fn written(v: ModelPreferencesView) -> JsonView {
        JsonView::Object(present(Self::members(v)) + v.extra)
    }

    /// What `j` is read as: an object in which no declared name occurs twice
    /// and every declared field reads; the first field that does not read
    /// gives the error. The other members are kept.
    #[verifier::opaque]
    pub open spec fn read(j: JsonView) -> Result<ModelPreferencesView, SchemaError> {
        match j {
            JsonView::Object(o) => {
                let hints = opt_field::<Vec<ModelHint>>(o, "hints"@);
                let cost_priority = opt_field::<JsonNumber>(o, "costPriority"@);
                let speed_priority = opt_field::<JsonNumber>(o, "speedPriority"@);
                let intelligence_priority = opt_field::<JsonNumber>(o, "intelligencePriority"@);
                if collides(o, Self::names()) {
                    Err(SchemaError::FieldCollision)
                } else if hints is Err {
                    Err(hints->Err_0)
                } else if cost_priority is Err {
                    Err(cost_priority->Err_0)
                } else if speed_priority is Err {
                    Err(speed_priority->Err_0)
                } else if intelligence_priority is Err {
                    Err(intelligence_priority->Err_0)
                } else {
                    Ok(
                        ModelPreferencesView {
                            hints: hints->Ok_0,
                            cost_priority: cost_priority->Ok_0,
                            speed_priority: speed_priority->Ok_0,
                            intelligence_priority: intelligence_priority->Ok_0,
                            extra: without(o, Self::names()),
                        },
                    )
                }
            },
            _ => Err(SchemaError::ParamsShapeMismatch),
        }
    }

    /// The declared fields of a valid value have names of their own and
    /// well-formed values.
    pub proof fn lemma_members(v: ModelPreferencesView)
        requires
            Self::valid(v),
        ensures
            members_ok(Self::members(v), Self::names()),
    {
        broadcast use group_record;

        reveal_strlit("hints");
        reveal_strlit("costPriority");
        reveal_strlit("speedPriority");
        reveal_strlit("intelligencePriority");
        assert("hints"@.len() == 5);
        assert("costPriority"@.len() == 12);
        assert("speedPriority"@.len() == 13);
        assert("intelligencePriority"@.len() == 20);
        if v.hints is Some {
            Vec::<ModelHint>::lemma_round_trip(v.hints->Some_0);
        }
        if v.cost_priority is Some {
            JsonNumber::lemma_round_trip(v.cost_priority->Some_0);
        }
        if v.speed_priority is Some {
            JsonNumber::lemma_round_trip(v.speed_priority->Some_0);
        }
        if v.intelligence_priority is Some {
            JsonNumber::lemma_round_trip(v.intelligence_priority->Some_0);
        }
    }
}

impl Wire for ModelPreferences {
    open spec fn valid(v: ModelPreferencesView) -> bool {
        &&& valid_opt::<Vec<ModelHint>>(v.hints)
        &&& valid_opt::<JsonNumber>(v.cost_priority)
        &&& valid_opt::<JsonNumber>(v.speed_priority)
        &&& valid_opt::<JsonNumber>(v.intelligence_priority)
        &&& fields_wf(v.extra)
        &&& avoids(v.extra, Self::names())
    }

    open spec fn encode(v: ModelPreferencesView) -> JsonView {
        Self::written(v)
    }

    open spec fn decode(j: JsonView) -> Result<ModelPreferencesView, SchemaError> {
        Self::read(j)
    }

    fn to_json(&self) -> (j: Json) {
        let mut out = no_members();
        write_opt_field::<Vec<ModelHint>>(&mut out, "hints", &self.hints);
        write_opt_field::<JsonNumber>(&mut out, "costPriority", &self.cost_priority);
        write_opt_field::<JsonNumber>(&mut out, "speedPriority", &self.speed_priority);
        write_opt_field::<JsonNumber>(
            &mut out,
            "intelligencePriority",
            &self.intelligence_priority,
        );
        write_rest(&mut out, &self.extra);
        proof {
            broadcast use group_writer;

            reveal(ModelPreferences::written);
            lemma_object_view(out);
        }
        Json::Object(out)
    }

    fn from_json(j: &Json) -> (r: Result<ModelPreferences, SchemaError>) {
        proof {
            reveal(ModelPreferences::read);
        }
        match j {
            Json::Object(entries) => {
                proof {
                    lemma_object_view(*entries);
                }
                if repeats::<ModelPreferences>(entries) {
                    return Err(SchemaError::FieldCollision);
                }
                let hints = read_opt_field::<Vec<ModelHint>>(entries, "hints")?;
                let cost_priority = read_opt_field::<JsonNumber>(entries, "costPriority")?;
                let speed_priority = read_opt_field::<JsonNumber>(entries, "speedPriority")?;
                let intelligence_priority = read_opt_field::<JsonNumber>(
                    entries,
                    "intelligencePriority",
                )?;
                Ok(
                    ModelPreferences {
                        hints,
                        cost_priority,
                        speed_priority,
                        intelligence_priority,
                        extra: rest::<ModelPreferences>(entries),
                    },
                )
            },
            _ => Err(SchemaError::ParamsShapeMismatch),
        }
    }

    proof fn lemma_round_trip(v: ModelPreferencesView) {
        reveal(ModelPreferences::written);
        reveal(ModelPreferences::read);
        let m = Self::members(v);
        Self::lemma_members(v);
        lemma_written_record(m, v.extra, Self::names());
        lemma_member_at(m, Self::names(), 0);
        lemma_member_at(m, Self::names(), 1);
        lemma_member_at(m, Self::names(), 2);
        lemma_member_at(m, Self::names(), 3);
        if v.hints is Some {
            Vec::<ModelHint>::lemma_round_trip(v.hints->Some_0);
        }
        if v.cost_priority is Some {
            JsonNumber::lemma_round_trip(v.cost_priority->Some_0);
        }
        if v.speed_priority is Some {
            JsonNumber::lemma_round_trip(v.speed_priority->Some_0);
        }
        if v.intelligence_priority is Some {
            JsonNumber::lemma_round_trip(v.intelligence_priority->Some_0);
        }
    }
}

impl WireSound for ModelPreferences {
    proof fn lemma_decoded_valid(j: JsonView) {
        broadcast use group_record;

        reveal(ModelPreferences::written);
        reveal(ModelPreferences::read);
        let o = j->Object_0;
        if get(o, "hints"@) is Some && get(o, "hints"@) != Some(JsonView::Null) {
            Vec::<ModelHint>::lemma_decoded_valid(get(o, "hints"@)->Some_0);
        }
        if get(o, "costPriority"@) is Some && get(o, "costPriority"@) != Some(JsonView::Null) {
            JsonNumber::lemma_decoded_valid(get(o, "costPriority"@)->Some_0);
        }
        if get(o, "speedPriority"@) is Some && get(o, "speedPriority"@) != Some(JsonView::Null) {
            JsonNumber::lemma_decoded_valid(get(o, "speedPriority"@)->Some_0);
        }
        if get(o, "intelligencePriority"@) is Some
            && get(o, "intelligencePriority"@) != Some(JsonView::Null) {
            JsonNumber::lemma_decoded_valid(get(o, "intelligencePriority"@)->Some_0);
        }
        lemma_without_members(o, Self::names());
    }
}

impl Layout for ModelPreferences {
    open spec fn layout(v: ModelPreferencesView) -> Members {
        Self::members(v)
    }

    open spec fn others(v: ModelPreferencesView) -> Fields {
        v.extra
    }

    proof fn lemma_layout(v: ModelPreferencesView) {
        reveal(ModelPreferences::written);
        Self::lemma_members(v);
    }
}

/// The parameters of `sampling/createMessage`.
#[derive(Debug, Clone)]
pub struct CreateMessageParams {
    pub messages: Vec<SamplingMessage>,
    pub model_preferences: Option<ModelPreferences>,
    pub system_prompt: Option<String>,
    pub include_context: Option<String>,
    pub temperature: Option<JsonNumber>,
    pub max_tokens: i64,
    pub stop_sequences: Option<Vec<String>>,
    pub metadata: Option<JsonObject>,
    pub extra: JsonObject,
}

/// [`CreateMessageParams`] as specifications see it.
pub struct CreateMessageParamsView {
    pub messages: Seq<SamplingMessageView>,
    pub model_preferences: Option<ModelPreferencesView>,
    pub system_prompt: Option<Seq<char>>,
    pub include_context: Option<Seq<char>>,
    pub temperature: Option<JsonNumber>,
    pub max_tokens: i64,
    pub stop_sequences: Option<Seq<Seq<char>>>,
    pub metadata: Option<Fields>,
    pub extra: Fields,
}

impl DeepView for CreateMessageParams {
    type V = CreateMessageParamsView;

    open spec fn deep_view(&self) -> CreateMessageParamsView {
        CreateMessageParamsView {
            messages: self.messages.deep_view(),
            model_preferences: self.model_preferences.deep_view(),
            system_prompt: self.system_prompt.deep_view(),
            include_context: self.include_context.deep_view(),
            temperature: self.temperature.deep_view(),
            max_tokens: self.max_tokens.deep_view(),
            stop_sequences: self.stop_sequences.deep_view(),
            metadata: self.metadata.deep_view(),
            extra: self.extra.deep_view(),
        }
    }
}

impl Record for CreateMessageParams {
    open spec fn names() -> Set<Seq<char>> {
        set![
            "messages"@,
            "modelPreferences"@,
            "systemPrompt"@,
            "includeContext"@,
            "temperature"@,
            "maxTokens"@,
            "stopSequences"@,
            "metadata"@,
        ]
    }

    fn declares(key: &str) -> (b: bool) {
        same_text(key, "messages")
            || same_text(key, "modelPreferences")
            || same_text(key, "systemPrompt")
            || same_text(key, "includeContext")
            || same_text(key, "temperature")
            || same_text(key, "maxTokens")
            || same_text(key, "stopSequences")
            || same_text(key, "metadata")
    }
}

impl CreateMessageParams {
    /// The declared fields of `v`, each with what is written for it.
    pub open spec fn members(v: CreateMessageParamsView) -> Members {
        Seq::empty()
            .push(member::<Vec<SamplingMessage>>("messages"@, v.messages))
            .push(opt_member::<ModelPreferences>("modelPreferences"@, v.model_preferences))
            .push(opt_member::<String>("systemPrompt"@, v.system_prompt))
            .push(opt_member::<String>("includeContext"@, v.include_context))
            .push(opt_member::<JsonNumber>("temperature"@, v.temperature))
            .push(member::<i64>("maxTokens"@, v.max_tokens))
            .push(opt_member::<Vec<String>>("stopSequences"@, v.stop_sequences))
            .push(opt_member::<JsonObject>("metadata"@, v.metadata))
    }

    /// The object that stands for `v`: its declared fields, then its other
    /// members.
    #[verifier::opaque]
    pub open spec fn written(v: CreateMessageParamsView) -> JsonView {
        JsonView::Object(present(Self::members(v)) + v.extra)
    }

    /// What `j` is read as: an object in which no declared name occurs twice
    /// and every declared field reads; the first field that does not read
    /// gives the error. The other members are kept.
    #[verifier::opaque]
    pub open spec fn read(j: JsonView) -> Result<CreateMessageParamsView, SchemaError> {
        match j {
            JsonView::Object(o) => {
                let messages = field::<Vec<SamplingMessage>>(o, "messages"@);
                let model_preferences = opt_field::<ModelPreferences>(o, "modelPreferences"@);
                let system_prompt = opt_field::<String>(o, "systemPrompt"@);
                let include_context = opt_field::<String>(o, "includeContext"@);
                let temperature = opt_field::<JsonNumber>(o, "temperature"@);
                let max_tokens = field::<i64>(o, "maxTokens"@);
                let stop_sequences = opt_field::<Vec<String>>(o, "stopSequences"@);
                let metadata = opt_field::<JsonObject>(o, "metadata"@);
                if collides(o, Self::names()) {
                    Err(SchemaError::FieldCollision)
                } else if messages is Err {
                    Err(messages->Err_0)
                } else if model_preferences is Err {
                    Err(model_preferences->Err_0)
                } else if system_prompt is Err {
                    Err(system_prompt->Err_0)
                } else if include_context is Err {
                    Err(include_context->Err_0)
                } else if temperature is Err {
                    Err(temperature->Err_0)
                } else if max_tokens is Err {
                    Err(max_tokens->Err_0)
                } else if stop_sequences is Err {
                    Err(stop_sequences->Err_0)
                } else if metadata is Err {
                    Err(metadata->Err_0)
                } else {
                    Ok(
                        CreateMessageParamsView {
                            messages: messages->Ok_0,
                            model_preferences: model_preferences->Ok_0,
                            system_prompt: system_prompt->Ok_0,
                            include_context: include_context->Ok_0,
                            temperature: temperature->Ok_0,
                            max_tokens: max_tokens->Ok_0,
                            stop_sequences: stop_sequences->Ok_0,
                            metadata: metadata->Ok_0,
                            extra: without(o, Self::names()),
                        },
                    )
                }
            },
            _ => Err(SchemaError::ParamsShapeMismatch),
        }
    }

    /// The declared fields of a valid value have names of their own and
    /// well-formed values.
    pub proof fn lemma_members(v: CreateMessageParamsView)
        requires
            Self::valid(v),
        ensures
            members_ok(Self::members(v), Self::names()),
    {
        broadcast use group_record;

        reveal_strlit("messages");
        reveal_strlit("modelPreferences");
        reveal_strlit("systemPrompt");
        reveal_strlit("includeContext");
        reveal_strlit("temperature");
        reveal_strlit("maxTokens");
        reveal_strlit("stopSequences");
        reveal_strlit("metadata");
        assert("messages"@.len() == 8);
        assert("modelPreferences"@.len() == 16);
        assert("systemPrompt"@.len() == 12);
        assert("includeContext"@.len() == 14);
        assert("temperature"@.len() == 11);
        assert("maxTokens"@.len() == 9);
        assert("stopSequences"@.len() == 13);
        assert("metadata"@.len() == 8);
        assert("messages"@[2] == 's');
        assert("metadata"@[2] == 't');
        Vec::<SamplingMessage>::lemma_round_trip(v.messages);
        if v.model_preferences is Some {
            ModelPreferences::lemma_round_trip(v.model_preferences->Some_0);
        }
        if v.system_prompt is Some {
            String::lemma_round_trip(v.system_prompt->Some_0);
        }
        if v.include_context is Some {
            String::lemma_round_trip(v.include_context->Some_0);
        }
        if v.temperature is Some {
            JsonNumber::lemma_round_trip(v.temperature->Some_0);
        }
        i64::lemma_round_trip(v.max_tokens);
        if v.stop_sequences is Some {
            Vec::<String>::lemma_round_trip(v.stop_sequences->Some_0);
        }
        if v.metadata is Some {
            JsonObject::lemma_round_trip(v.metadata->Some_0);
        }
    }
}

impl Wire for CreateMessageParams {
    open spec fn valid(v: CreateMessageParamsView) -> bool {
        &&& Vec::<SamplingMessage>::valid(v.messages)
        &&& valid_opt::<ModelPreferences>(v.model_preferences)
        &&& valid_opt::<String>(v.system_prompt)
        &&& valid_opt::<String>(v.include_context)
        &&& valid_opt::<JsonNumber>(v.temperature)
        &&& i64::valid(v.max_tokens)
        &&& valid_opt::<Vec<String>>(v.stop_sequences)
        &&& valid_opt::<JsonObject>(v.metadata)
        &&& fields_wf(v.extra)
        &&& avoids(v.extra, Self::names())
    }

    open spec fn encode(v: CreateMessageParamsView) -> JsonView {
        Self::written(v)
    }

    open spec fn decode(j: JsonView) -> Result<CreateMessageParamsView, SchemaError> {
        Self::read(j)
    }

    fn to_json(&self) -> (j: Json) {
        let mut out = no_members();
        write_field::<Vec<SamplingMessage>>(&mut out, "messages", &self.messages);
        write_opt_field::<ModelPreferences>(&mut out, "modelPreferences", &self.model_preferences);
        write_opt_field::<String>(&mut out, "systemPrompt", &self.system_prompt);
        write_opt_field::<String>(&mut out, "includeContext", &self.include_context);
        write_opt_field::<JsonNumber>(&mut out, "temperature", &self.temperature);
        write_field::<i64>(&mut out, "maxTokens", &self.max_tokens);
        write_opt_field::<Vec<String>>(&mut out, "stopSequences", &self.stop_sequences);
        write_opt_field::<JsonObject>(&mut out, "metadata", &self.metadata);
        write_rest(&mut out, &self.extra);
        proof {
            broadcast use group_writer;

            reveal(CreateMessageParams::written);
            lemma_object_view(out);
        }
        Json::Object(out)
    }

    fn from_json(j: &Json) -> (r: Result<CreateMessageParams, SchemaError>) {
        proof {
            reveal(CreateMessageParams::read);
        }
        match j {
            Json::Object(entries) => {
                proof {
                    lemma_object_view(*entries);
                }
                if repeats::<CreateMessageParams>(entries) {
                    return Err(SchemaError::FieldCollision);
                }
                let messages = read_field::<Vec<SamplingMessage>>(entries, "messages")?;
                let model_preferences = read_opt_field::<ModelPreferences>(
                    entries,
                    "modelPreferences",
                )?;
                let system_prompt = read_opt_field::<String>(entries, "systemPrompt")?;
                let include_context = read_opt_field::<String>(entries, "includeContext")?;
                let temperature = read_opt_field::<JsonNumber>(entries, "temperature")?;
                let max_tokens = read_field::<i64>(entries, "maxTokens")?;
                let stop_sequences = read_opt_field::<Vec<String>>(entries, "stopSequences")?;
                let metadata = read_opt_field::<JsonObject>(entries, "metadata")?;
                Ok(
                    CreateMessageParams {
                        messages,
                        model_preferences,
                        system_prompt,
                        include_context,
                        temperature,
                        max_tokens,
                        stop_sequences,
                        metadata,
                        extra: rest::<CreateMessageParams>(entries),
                    },
                )
            },
            _ => Err(SchemaError::ParamsShapeMismatch),
        }
    }

    proof fn lemma_round_trip(v: CreateMessageParamsView) {
        reveal(CreateMessageParams::written);
        reveal(CreateMessageParams::read);
        let m = Self::members(v);
        Self::lemma_members(v);
        lemma_written_record(m, v.extra, Self::names());
        lemma_member_at(m, Self::names(), 0);
        lemma_member_at(m, Self::names(), 1);
        lemma_member_at(m, Self::names(), 2);
        lemma_member_at(m, Self::names(), 3);
        lemma_member_at(m, Self::names(), 4);
        lemma_member_at(m, Self::names(), 5);
        lemma_member_at(m, Self::names(), 6);
        lemma_member_at(m, Self::names(), 7);
        Vec::<SamplingMessage>::lemma_round_trip(v.messages);
        if v.model_preferences is Some {
            ModelPreferences::lemma_round_trip(v.model_preferences->Some_0);
        }
        if v.system_prompt is Some {
            String::lemma_round_trip(v.system_prompt->Some_0);
        }
        if v.include_context is Some {
            String::lemma_round_trip(v.include_context->Some_0);
        }
        if v.temperature is Some {
            JsonNumber::lemma_round_trip(v.temperature->Some_0);
        }
        i64::lemma_round_trip(v.max_tokens);
        if v.stop_sequences is Some {
            Vec::<String>::lemma_round_trip(v.stop_sequences->Some_0);
        }
        if v.metadata is Some {
            JsonObject::lemma_round_trip(v.metadata->Some_0);
        }
    }
}

impl WireSound for CreateMessageParams {
    proof fn lemma_decoded_valid(j: JsonView) {
        broadcast use group_record;

        reveal(CreateMessageParams::written);
        reveal(CreateMessageParams::read);
        let o = j->Object_0;
        Vec::<SamplingMessage>::lemma_decoded_valid(get(o, "messages"@)->Some_0);
        if get(o, "modelPreferences"@) is Some
            && get(o, "modelPreferences"@) != Some(JsonView::Null) {
            ModelPreferences::lemma_decoded_valid(get(o, "modelPreferences"@)->Some_0);
        }
        if get(o, "systemPrompt"@) is Some && get(o, "systemPrompt"@) != Some(JsonView::Null) {
            String::lemma_decoded_valid(get(o, "systemPrompt"@)->Some_0);
        }
        if get(o, "includeContext"@) is Some && get(o, "includeContext"@) != Some(JsonView::Null) {
            String::lemma_decoded_valid(get(o, "includeContext"@)->Some_0);
        }
        if get(o, "temperature"@) is Some && get(o, "temperature"@) != Some(JsonView::Null) {
            JsonNumber::lemma_decoded_valid(get(o, "temperature"@)->Some_0);
        }
        i64::lemma_decoded_valid(get(o, "maxTokens"@)->Some_0);
        if get(o, "stopSequences"@) is Some && get(o, "stopSequences"@) != Some(JsonView::Null) {
            Vec::<String>::lemma_decoded_valid(get(o, "stopSequences"@)->Some_0);
        }
        if get(o, "metadata"@) is Some && get(o, "metadata"@) != Some(JsonView::Null) {
            JsonObject::lemma_decoded_valid(get(o, "metadata"@)->Some_0);
        }
        lemma_without_members(o, Self::names());
    }
}

impl Layout for CreateMessageParams {
    open spec fn layout(v: CreateMessageParamsView) -> Members {
        Self::members(v)
    }

    open spec fn others(v: CreateMessageParamsView) -> Fields {
        v.extra
    }

    proof fn lemma_layout(v: CreateMessageParamsView) {
        reveal(CreateMessageParams::written);
        Self::lemma_members(v);
    }
}

/// The answer to `sampling/createMessage`.
#[derive(Debug, Clone)]
pub struct CreateMessageResult {
    pub meta: Option<JsonObject>,
    pub role: Role,
    pub content: SamplingContent,
    pub model: String,
    pub stop_reason: Option<String>,
    pub extra: JsonObject,
}

/// [`CreateMessageResult`] as specifications see it.
pub struct CreateMessageResultView {
    pub meta: Option<Fields>,
    pub role: Role,
    pub content: SamplingContentView,
    pub model: Seq<char>,
    pub stop_reason: Option<Seq<char>>,
    pub extra: Fields,
}

impl DeepView for CreateMessageResult {
    type V = CreateMessageResultView;

    open spec fn deep_view(&self) -> CreateMessageResultView {
        CreateMessageResultView {
            meta: self.meta.deep_view(),
            role: self.role.deep_view(),
            content: self.content.deep_view(),
            model: self.model.deep_view(),
            stop_reason: self.stop_reason.deep_view(),
            extra: self.extra.deep_view(),
        }
    }
}

impl Record for CreateMessageResult {
    open spec fn names() -> Set<Seq<char>> {
        set!["_meta"@, "role"@, "content"@, "model"@, "stopReason"@]
    }

    fn declares(key: &str) -> (b: bool) {
        same_text(key, "_meta")
            || same_text(key, "role")
            || same_text(key, "content")
            || same_text(key, "model")
            || same_text(key, "stopReason")
    }
}

impl CreateMessageResult {
    /// The declared fields of `v`, each with what is written for it.
    pub open spec fn members(v: CreateMessageResultView) -> Members {
        Seq::empty()
            .push(opt_member::<JsonObject>("_meta"@, v.meta))
            .push(member::<Role>("role"@, v.role))
            .push(member::<SamplingContent>("content"@, v.content))
            .push(member::<String>("model"@, v.model))
            .push(opt_member::<String>("stopReason"@, v.stop_reason))
    }

    /// The object that stands for `v`: its declared fields, then its other
    /// members.
    #[verifier::opaque]
    pub open spec fn written(v: CreateMessageResultView) -> JsonView {
        JsonView::Object(present(Self::members(v)) + v.extra)
    }

    /// What `j` is read as: an object in which no declared name occurs twice
    /// and every declared field reads; the first field that does not read
    /// gives the error. The other members are kept.
    #[verifier::opaque]
    pub open spec fn read(j: JsonView) -> Result<CreateMessageResultView, SchemaError> {
        match j {
            JsonView::Object(o) => {
                let meta = opt_field::<JsonObject>(o, "_meta"@);
                let role = field::<Role>(o, "role"@);
                let content = field::<SamplingContent>(o, "content"@);
                let model = field::<String>(o, "model"@);
                let stop_reason = opt_field::<String>(o, "stopReason"@);
                if collides(o, Self::names()) {
                    Err(SchemaError::FieldCollision)
                } else if meta is Err {
                    Err(meta->Err_0)
                } else if role is Err {
                    Err(role->Err_0)
                } else if content is Err {
                    Err(content->Err_0)
                } else if model is Err {
                    Err(model->Err_0)
                } else if stop_reason is Err {
                    Err(stop_reason->Err_0)
                } else {
                    Ok(
                        CreateMessageResultView {
                            meta: meta->Ok_0,
                            role: role->Ok_0,
                            content: content->Ok_0,
                            model: model->Ok_0,
                            stop_reason: stop_reason->Ok_0,
                            extra: without(o, Self::names()),
                        },
                    )
                }
            },
            _ => Err(SchemaError::ParamsShapeMismatch),
        }
    }

    /// The declared fields of a valid value have names of their own and
    /// well-formed values.
    pub proof fn lemma_members(v: CreateMessageResultView)
        requires
            Self::valid(v),
        ensures
            members_ok(Self::members(v), Self::names()),
    {
        broadcast use group_record;

        reveal_strlit("_meta");
        reveal_strlit("role");
        reveal_strlit("content");
        reveal_strlit("model");
        reveal_strlit("stopReason");
        assert("_meta"@.len() == 5);
        assert("role"@.len() == 4);
        assert("content"@.len() == 7);
        assert("model"@.len() == 5);
        assert("stopReason"@.len() == 10);
        assert("_meta"@[0] == '_');
        assert("model"@[0] == 'm');
        if v.meta is Some {
            JsonObject::lemma_round_trip(v.meta->Some_0);
        }
        Role::lemma_round_trip(v.role);
        SamplingContent::lemma_round_trip(v.content);
        String::lemma_round_trip(v.model);
        if v.stop_reason is Some {
            String::lemma_round_trip(v.stop_reason->Some_0);
        }
    }
}

impl Wire for CreateMessageResult {
    open spec fn valid(v: CreateMessageResultView) -> bool {
        &&& valid_opt::<JsonObject>(v.meta)
        &&& Role::valid(v.role)
        &&& SamplingContent::valid(v.content)
        &&& String::valid(v.model)
        &&& valid_opt::<String>(v.stop_reason)
        &&& fields_wf(v.extra)
        &&& avoids(v.extra, Self::names())
    }

    open spec fn encode(v: CreateMessageResultView) -> JsonView {
        Self::written(v)
    }

    open spec fn decode(j: JsonView) -> Result<CreateMessageResultView, SchemaError> {
        Self::read(j)
    }

    fn to_json(&self) -> (j: Json) {
        let mut out = no_members();
        write_opt_field::<JsonObject>(&mut out, "_meta", &self.meta);
        write_field::<Role>(&mut out, "role", &self.role);
        write_field::<SamplingContent>(&mut out, "content", &self.content);
        write_field::<String>(&mut out, "model", &self.model);
        write_opt_field::<String>(&mut out, "stopReason", &self.stop_reason);
        write_rest(&mut out, &self.extra);
        proof {
            broadcast use group_writer;

            reveal(CreateMessageResult::written);
            lemma_object_view(out);
        }
        Json::Object(out)
    }

    fn from_json(j: &Json) -> (r: Result<CreateMessageResult, SchemaError>) {
        proof {
            reveal(CreateMessageResult::read);
        }
        match j {
            Json::Object(entries) => {
                proof {
                    lemma_object_view(*entries);
                }
                if repeats::<CreateMessageResult>(entries) {
                    return Err(SchemaError::FieldCollision);
                }
                let meta = read_opt_field::<JsonObject>(entries, "_meta")?;
                let role = read_field::<Role>(entries, "role")?;
                let content = read_field::<SamplingContent>(entries, "content")?;
                let model = read_field::<String>(entries, "model")?;
                let stop_reason = read_opt_field::<String>(entries, "stopReason")?;
                Ok(
                    CreateMessageResult {
                        meta,
                        role,
                        content,
                        model,
                        stop_reason,
                        extra: rest::<CreateMessageResult>(entries),
                    },
                )
            },
            _ => Err(SchemaError::ParamsShapeMismatch),
        }
    }

    proof fn lemma_round_trip(v: CreateMessageResultView) {
        reveal(CreateMessageResult::written);
        reveal(CreateMessageResult::read);
        let m = Self::members(v);
        Self::lemma_members(v);
        lemma_written_record(m, v.extra, Self::names());
        lemma_member_at(m, Self::names(), 0);
        lemma_member_at(m, Self::names(), 1);
        lemma_member_at(m, Self::names(), 2);
        lemma_member_at(m, Self::names(), 3);
        lemma_member_at(m, Self::names(), 4);
        if v.meta is Some {
            JsonObject::lemma_round_trip(v.meta->Some_0);
        }
        Role::lemma_round_trip(v.role);
        SamplingContent::lemma_round_trip(v.content);
        String::lemma_round_trip(v.model);
        if v.stop_reason is Some {
            String::lemma_round_trip(v.stop_reason->Some_0);
        }
    }
}

impl WireSound for CreateMessageResult {
    proof fn lemma_decoded_valid(j: JsonView) {
        broadcast use group_record;

        reveal(CreateMessageResult::written);
        reveal(CreateMessageResult::read);
        let o = j->Object_0;
        if get(o, "_meta"@) is Some && get(o, "_meta"@) != Some(JsonView::Null) {
            JsonObject::lemma_decoded_valid(get(o, "_meta"@)->Some_0);
        }
        Role::lemma_decoded_valid(get(o, "role"@)->Some_0);
        SamplingContent::lemma_decoded_valid(get(o, "content"@)->Some_0);
        String::lemma_decoded_valid(get(o, "model"@)->Some_0);
        if get(o, "stopReason"@) is Some && get(o, "stopReason"@) != Some(JsonView::Null) {
            String::lemma_decoded_valid(get(o, "stopReason"@)->Some_0);
        }
        lemma_without_members(o, Self::names());
    }
}

impl Layout for CreateMessageResult {
    open spec fn layout(v: CreateMessageResultView) -> Members {
        Self::members(v)
    }

    open spec fn others(v: CreateMessageResultView) -> Fields {
        v.extra
    }

    proof fn lemma_layout(v: CreateMessageResultView) {
        reveal(CreateMessageResult::written);
        Self::lemma_members(v);
    }
}

/// What a sampling message holds: text or an image. The member `type` says
/// which.
#[derive(Debug, Clone)]
pub enum SamplingContent {
    Text(TextContent),
    Image(ImageContent),
}

/// [`SamplingContent`] as specifications see it.
pub enum SamplingContentView {
    Text(TextContentView),
    Image(ImageContentView),
}

impl DeepView for SamplingContent {
    type V = SamplingContentView;

    open spec fn deep_view(&self) -> SamplingContentView {
        match self {
            SamplingContent::Text(x) => SamplingContentView::Text(x.deep_view()),
            SamplingContent::Image(x) => SamplingContentView::Image(x.deep_view()),
        }
    }
}

impl Wire for SamplingContent {
    /// The variant holds a valid value whose `type` names the variant.
    open spec fn valid(v: SamplingContentView) -> bool {
        match v {
            SamplingContentView::Text(x) => TextContent::valid(x) && x.kind == "text"@,
            SamplingContentView::Image(x) => ImageContent::valid(x) && x.kind == "image"@,
        }
    }

    open spec fn encode(v: SamplingContentView) -> JsonView {
        match v {
            SamplingContentView::Text(x) => TextContent::encode(x),
            SamplingContentView::Image(x) => ImageContent::encode(x),
        }
    }

    /// The variant that the member `type` names, read as that variant;
    /// without such a member, or with a name that is not known, the
    /// variant is unknown.
    open spec fn decode(j: JsonView) -> Result<SamplingContentView, SchemaError> {
        match j {
            JsonView::Object(o) => match get(o, "type"@) {
                Some(JsonView::String(t)) => {
                    if t == "text"@ {
                        match TextContent::decode(j) {
                            Ok(x) => Ok(SamplingContentView::Text(x)),
                            Err(e) => Err(e),
                        }
                    } else if t == "image"@ {
                        match ImageContent::decode(j) {
                            Ok(x) => Ok(SamplingContentView::Image(x)),
                            Err(e) => Err(e),
                        }
                    } else {
                        Err(SchemaError::UnknownContentVariant)
                    }
                },
                _ => Err(SchemaError::UnknownContentVariant),
            },
            _ => Err(SchemaError::UnknownContentVariant),
        }
    }

    fn to_json(&self) -> (j: Json) {
        match self {
            SamplingContent::Text(x) => x.to_json(),
            SamplingContent::Image(x) => x.to_json(),
        }
    }

    fn from_json(j: &Json) -> (r: Result<SamplingContent, SchemaError>) {
        match j {
            Json::Object(entries) => {
                proof {
                    lemma_object_view(*entries);
                }
                match find(entries, "type") {
                    Some(Json::String(t)) => {
                        if same_text(t.as_str(), "text") {
                            match TextContent::from_json(j) {
                                Ok(x) => Ok(SamplingContent::Text(x)),
                                Err(e) => Err(e),
                            }
                        } else if same_text(t.as_str(), "image") {
                            match ImageContent::from_json(j) {
                                Ok(x) => Ok(SamplingContent::Image(x)),
                                Err(e) => Err(e),
                            }
                        } else {
                            Err(SchemaError::UnknownContentVariant)
                        }
                    },
                    _ => Err(SchemaError::UnknownContentVariant),
                }
            },
            _ => Err(SchemaError::UnknownContentVariant),
        }
    }

    proof fn lemma_round_trip(v: SamplingContentView) {
        broadcast use group_record;

        match v {
            SamplingContentView::Text(x) => {
                reveal_strlit("type");
                reveal_strlit("text");
                reveal_strlit("annotations");
                assert("type"@.len() == 4);
                assert("text"@.len() == 4);
                assert("annotations"@.len() == 11);
                assert("text"@[1] == 'e');
                assert("type"@[1] == 'y');
                reveal_strlit("image");
                assert("text"@.len() == 4);
                assert("image"@.len() == 5);
                TextContent::lemma_layout(x);
                lemma_written_record(
                    TextContent::layout(x),
                    TextContent::others(x),
                    TextContent::names(),
                );
                lemma_member_at(TextContent::layout(x), TextContent::names(), 0);
                TextContent::lemma_round_trip(x);
            },
            SamplingContentView::Image(x) => {
                reveal_strlit("type");
                reveal_strlit("data");
                reveal_strlit("mimeType");
                reveal_strlit("annotations");
                assert("type"@.len() == 4);
                assert("data"@.len() == 4);
                assert("mimeType"@.len() == 8);
                assert("annotations"@.len() == 11);
                assert("data"@[0] == 'd');
                assert("type"@[0] == 't');
                reveal_strlit("text");
                reveal_strlit("image");
                assert("text"@.len() == 4);
                assert("image"@.len() == 5);
                ImageContent::lemma_layout(x);
                lemma_written_record(
                    ImageContent::layout(x),
                    ImageContent::others(x),
                    ImageContent::names(),
                );
                lemma_member_at(ImageContent::layout(x), ImageContent::names(), 0);
                ImageContent::lemma_round_trip(x);
            },
        }
    }
}

impl WireSound for SamplingContent {
    proof fn lemma_decoded_valid(j: JsonView) {
        broadcast use group_record;

        match Self::decode(j)->Ok_0 {
            SamplingContentView::Text(x) => {
                reveal(TextContent::read);
                reveal(TextContent::written);
                TextContent::lemma_decoded_valid(j);
            },
            SamplingContentView::Image(x) => {
                reveal(ImageContent::read);
                reveal(ImageContent::written);
                ImageContent::lemma_decoded_valid(j);
            },
        }
    }
}

} // verus!
