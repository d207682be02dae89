//! What several kinds of message share: roles, annotations, content, pages.

use vstd::prelude::*;
use crate::error::SchemaError;
use crate::json::{
    avoids, collides, fields_wf, get, lemma_object_view, lemma_without_members, same_text,
    without, Fields, Json, JsonNumber, JsonView,
};
use crate::record::{
    field, group_record, group_writer, lemma_member_at, lemma_written_record, member, members_ok,
    no_members, opt_field, opt_member, present, read_field, read_opt_field, repeats, rest,
    valid_opt, with, write_field, write_opt_field, write_rest, JsonObject, Layout, Members,
    Record,
};
use crate::types::base::{RequestMeta, RequestMetaView};
use crate::wire::{Wire, WireSound};

verus! {

/// Who sends or receives a message.
#[derive(Debug, Clone, Copy, PartialEq, Eq, Structural)]
pub enum Role {
    User,
    Assistant,
}

impl DeepView for Role {
    type V = Role;

    open spec fn deep_view(&self) -> Role {
        *self
    }
}

impl Role {
    /// The word that stands for `v`.
    pub open spec fn word(v: Role) -> Seq<char> {
        match v {
            Role::User => "user"@,
            Role::Assistant => "assistant"@,
        }
    }

    /// The word that stands for the value.
    pub fn as_str(&self) -> (text: &'static str)
        ensures
            text@ == Self::word(*self),
    {
        match self {
            Role::User => "user",
            Role::Assistant => "assistant",
        }
    }
}

impl Wire for Role {
    open spec fn valid(v: Role) -> bool {
        true
    }

    open spec fn encode(v: Role) -> JsonView {
        JsonView::String(Self::word(v))
    }

    open spec fn decode(j: JsonView) -> Result<Role, SchemaError> {
        match j {
            JsonView::String(s) => {
                if s == "user"@ {
                    Ok(Role::User)
                } else if s == "assistant"@ {
                    Ok(Role::Assistant)
                } else {
                    Err(SchemaError::ParamsShapeMismatch)
                }
            },
            _ => Err(SchemaError::ParamsShapeMismatch),
        }
    }

    fn to_json(&self) -> (j: Json) {
        Json::String(self.as_str().to_owned())
    }

    fn from_json(j: &Json) -> (r: Result<Role, SchemaError>) {
        match j {
            Json::String(s) => {
                if same_text(s.as_str(), "user") {
                    Ok(Role::User)
                } else if same_text(s.as_str(), "assistant") {
                    Ok(Role::Assistant)
                } else {
                    Err(SchemaError::ParamsShapeMismatch)
                }
            },
            _ => Err(SchemaError::ParamsShapeMismatch),
        }
    }

    proof fn lemma_round_trip(v: Role) {
        reveal_strlit("user");
        reveal_strlit("assistant");
        assert("user"@.len() == 4);
        assert("assistant"@.len() == 9);
    }
}

impl WireSound for Role {
    proof fn lemma_decoded_valid(j: JsonView) {
    }
}

/// For whom an object is meant and how much it matters.
#[derive(Debug, Clone)]
pub struct Annotations {
    pub audience: Option<Vec<Role>>,
    pub priority: Option<JsonNumber>,
    pub extra: JsonObject,
}

/// [`Annotations`] as specifications see it.
pub struct AnnotationsView {
    pub audience: Option<Seq<Role>>,
    pub priority: Option<JsonNumber>,
    pub extra: Fields,
}

impl DeepView for Annotations {
    type V = AnnotationsView;

    open spec fn deep_view(&self) -> AnnotationsView {
        AnnotationsView {
            audience: self.audience.deep_view(),
            priority: self.priority.deep_view(),
            extra: self.extra.deep_view(),
        }
    }
}

impl Record for Annotations {
    open spec fn names() -> Set<Seq<char>> {
        set!["audience"@, "priority"@]
    }

    fn declares(key: &str) -> (b: bool) {
        same_text(key, "audience") || same_text(key, "priority")
    }
}

impl Annotations {
    /// The declared fields of `v`, each with what is written for it.
    pub open spec fn members(v: AnnotationsView) -> Members {
        Seq::empty()
            .push(opt_member::<Vec<Role>>("audience"@, v.audience))
            .push(opt_member::<JsonNumber>("priority"@, v.priority))
    }

    /// The object that stands for `v`: its declared fields, then its other
    /// members.
    #[verifier::opaque]
    pub open spec fn written(v: AnnotationsView) -> JsonView {
        JsonView::Object(present(Self::members(v)) + v.extra)
    }

    /// What `j` is read as: an object in which no declared name occurs twice
    /// and every declared field reads; the first field that does not read
    /// gives the error. The other members are kept.
    #[verifier::opaque]
    pub open spec fn read(j: JsonView) -> Result<AnnotationsView, SchemaError> {
        match j {
            JsonView::Object(o) => {
                let audience = opt_field::<Vec<Role>>(o, "audience"@);
                let priority = opt_field::<JsonNumber>(o, "priority"@);
                if collides(o, Self::names()) {
                    Err(SchemaError::FieldCollision)
                } else if audience is Err {
                    Err(audience->Err_0)
                } else if priority is Err {
                    Err(priority->Err_0)
                } else {
                    Ok(
                        AnnotationsView {
                            audience: audience->Ok_0,
                            priority: priority->Ok_0,
                            extra: without(o, Self::names()),
                        },
                    )
                }
            },
            _ => Err(SchemaError::ParamsShapeMismatch),
        }
    }

    /// The declared fields of a valid value have names of their own and
    /// well-formed values.
    pub proof fn lemma_members(v: AnnotationsView)
        requires
            Self::valid(v),
        ensures
            members_ok(Self::members(v), Self::names()),
    {
        broadcast use group_record;

        reveal_strlit("audience");
        reveal_strlit("priority");
        assert("audience"@.len() == 8);
        assert("priority"@.len() == 8);
        assert("audience"@[0] == 'a');
        assert("priority"@[0] == 'p');
        if v.audience is Some {
            Vec::<Role>::lemma_round_trip(v.audience->Some_0);
        }
        if v.priority is Some {
            JsonNumber::lemma_round_trip(v.priority->Some_0);
        }
    }
}

impl Wire for Annotations {
    open spec fn valid(v: AnnotationsView) -> bool {
        &&& valid_opt::<Vec<Role>>(v.audience)
        &&& valid_opt::<JsonNumber>(v.priority)
        &&& fields_wf(v.extra)
        &&& avoids(v.extra, Self::names())
    }

    open spec fn encode(v: AnnotationsView) -> JsonView {
        Self::written(v)
    }

    open spec fn decode(j: JsonView) -> Result<AnnotationsView, SchemaError> {
        Self::read(j)
    }

    fn to_json(&self) -> (j: Json) {
        let mut out = no_members();
        write_opt_field::<Vec<Role>>(&mut out, "audience", &self.audience);
        write_opt_field::<JsonNumber>(&mut out, "priority", &self.priority);
        write_rest(&mut out, &self.extra);
        proof {
            broadcast use group_writer;

            reveal(Annotations::written);
            lemma_object_view(out);
        }
        Json::Object(out)
    }

    fn from_json(j: &Json) -> (r: Result<Annotations, SchemaError>) {
        proof {
            reveal(Annotations::read);
        }
        match j {
            Json::Object(entries) => {
                proof {
                    lemma_object_view(*entries);
                }
                if repeats::<Annotations>(entries) {
                    return Err(SchemaError::FieldCollision);
                }
                let audience = read_opt_field::<Vec<Role>>(entries, "audience")?;
                let priority = read_opt_field::<JsonNumber>(entries, "priority")?;
                Ok(Annotations { audience, priority, extra: rest::<Annotations>(entries) })
            },
            _ => Err(SchemaError::ParamsShapeMismatch),
        }
    }

    proof fn lemma_round_trip(v: AnnotationsView) {
        reveal(Annotations::written);
        reveal(Annotations::read);
        let m = Self::members(v);
        Self::lemma_members(v);
        lemma_written_record(m, v.extra, Self::names());
        lemma_member_at(m, Self::names(), 0);
        lemma_member_at(m, Self::names(), 1);
        if v.audience is Some {
            Vec::<Role>::lemma_round_trip(v.audience->Some_0);
        }
        if v.priority is Some {
            JsonNumber::lemma_round_trip(v.priority->Some_0);
        }
    }
}

impl WireSound for Annotations {
    proof fn lemma_decoded_valid(j: JsonView) {
        broadcast use group_record;

        reveal(Annotations::written);
        reveal(Annotations::read);
        let o = j->Object_0;
        if get(o, "audience"@) is Some && get(o, "audience"@) != Some(JsonView::Null) {
            Vec::<Role>::lemma_decoded_valid(get(o, "audience"@)->Some_0);
        }
        if get(o, "priority"@) is Some && get(o, "priority"@) != Some(JsonView::Null) {
            JsonNumber::lemma_decoded_valid(get(o, "priority"@)->Some_0);
        }
        lemma_without_members(o, Self::names());
    }
}

impl Layout for Annotations {
    open spec fn layout(v: AnnotationsView) -> Members {
        Self::members(v)
    }

    open spec fn others(v: AnnotationsView) -> Fields {
        v.extra
    }

    proof fn lemma_layout(v: AnnotationsView) {
        reveal(Annotations::written);
        Self::lemma_members(v);
    }
}

/// Optional annotations, and whatever else the object holds.
#[derive(Debug, Clone)]
pub struct Annotated {
    pub annotations: Option<Annotations>,
    pub extra: JsonObject,
}

/// [`Annotated`] as specifications see it.
pub struct AnnotatedView {
    pub annotations: Option<AnnotationsView>,
    pub extra: Fields,
}

impl DeepView for Annotated {
    type V = AnnotatedView;

    open spec fn deep_view(&self) -> AnnotatedView {
        AnnotatedView {
            annotations: self.annotations.deep_view(),
            extra: self.extra.deep_view(),
        }
    }
}

impl Record for Annotated {
    open spec fn names() -> Set<Seq<char>> {
        set!["annotations"@]
    }

    fn declares(key: &str) -> (b: bool) {
        same_text(key, "annotations")
    }
}

impl Annotated {
    /// The declared fields of `v`, each with what is written for it.
    pub open spec fn members(v: AnnotatedView) -> Members {
        Seq::empty()
            .push(opt_member::<Annotations>("annotations"@, v.annotations))
    }

    /// The object that stands for `v`: its declared fields, then its other
    /// members.
    #[verifier::opaque]
    pub open spec fn written(v: AnnotatedView) -> JsonView {
        JsonView::Object(present(Self::members(v)) + v.extra)
    }

    /// What `j` is read as: an object in which no declared name occurs twice
    /// and every declared field reads; the first field that does not read
    /// gives the error. The other members are kept.
    #[verifier::opaque]
    pub open spec fn read(j: JsonView) -> Result<AnnotatedView, SchemaError> {
        match j {
            JsonView::Object(o) => {
                let annotations = opt_field::<Annotations>(o, "annotations"@);
                if collides(o, Self::names()) {
                    Err(SchemaError::FieldCollision)
                } else if annotations is Err {
                    Err(annotations->Err_0)
                } else {
                    Ok(
                        AnnotatedView {
                            annotations: annotations->Ok_0,
                            extra: without(o, Self::names()),
                        },
                    )
                }
            },
            _ => Err(SchemaError::ParamsShapeMismatch),
        }
    }

    /// The declared fields of a valid value have names of their own and
    /// well-formed values.
    pub proof fn lemma_members(v: AnnotatedView)
        requires
            Self::valid(v),
        ensures
            members_ok(Self::members(v), Self::names()),
    {
        broadcast use group_record;

        reveal_strlit("annotations");
        assert("annotations"@.len() == 11);
        if v.annotations is Some {
            Annotations::lemma_round_trip(v.annotations->Some_0);
        }
    }
}

impl Wire for Annotated {
    open spec fn valid(v: AnnotatedView) -> bool {
        &&& valid_opt::<Annotations>(v.annotations)
        &&& fields_wf(v.extra)
        &&& avoids(v.extra, Self::names())
    }

    open spec fn encode(v: AnnotatedView) -> JsonView {
        Self::written(v)
    }

    open spec fn decode(j: JsonView) -> Result<AnnotatedView, SchemaError> {
        Self::read(j)
    }

    fn to_json(&self) -> (j: Json) {
        let mut out = no_members();
        write_opt_field::<Annotations>(&mut out, "annotations", &self.annotations);
        write_rest(&mut out, &self.extra);
        proof {
            broadcast use group_writer;

            reveal(Annotated::written);
            lemma_object_view(out);
        }
        Json::Object(out)
    }

    fn from_json(j: &Json) -> (r: Result<Annotated, SchemaError>) {
        proof {
            reveal(Annotated::read);
        }
        match j {
            Json::Object(entries) => {
                proof {
                    lemma_object_view(*entries);
                }
                if repeats::<Annotated>(entries) {
                    return Err(SchemaError::FieldCollision);
                }
                let annotations = read_opt_field::<Annotations>(entries, "annotations")?;
                Ok(Annotated { annotations, extra: rest::<Annotated>(entries) })
            },
            _ => Err(SchemaError::ParamsShapeMismatch),
        }
    }

    proof fn lemma_round_trip(v: AnnotatedView) {
        reveal(Annotated::written);
        reveal(Annotated::read);
        let m = Self::members(v);
        Self::lemma_members(v);
        lemma_written_record(m, v.extra, Self::names());
        lemma_member_at(m, Self::names(), 0);
        if v.annotations is Some {
            Annotations::lemma_round_trip(v.annotations->Some_0);
        }
    }
}

impl WireSound for Annotated {
    proof fn lemma_decoded_valid(j: JsonView) {
        broadcast use group_record;

        reveal(Annotated::written);
        reveal(Annotated::read);
        let o = j->Object_0;
        if get(o, "annotations"@) is Some && get(o, "annotations"@) != Some(JsonView::Null) {
            Annotations::lemma_decoded_valid(get(o, "annotations"@)->Some_0);
        }
        lemma_without_members(o, Self::names());
    }
}

impl Layout for Annotated {
    open spec fn layout(v: AnnotatedView) -> Members {
        Self::members(v)
    }

    open spec fn others(v: AnnotatedView) -> Fields {
        v.extra
    }

    proof fn lemma_layout(v: AnnotatedView) {
        reveal(Annotated::written);
        Self::lemma_members(v);
    }
}

/// A piece of text.
#[derive(Debug, Clone)]
pub struct TextContent {
    pub kind: String,
    pub text: String,
    pub annotated: Annotated,
}

/// [`TextContent`] as specifications see it.
pub struct TextContentView {
    pub kind: Seq<char>,
    pub text: Seq<char>,
    pub annotated: AnnotatedView,
}

impl DeepView for TextContent {
    type V = TextContentView;

    open spec fn deep_view(&self) -> TextContentView {
        TextContentView {
            kind: self.kind.deep_view(),
            text: self.text.deep_view(),
            annotated: self.annotated.deep_view(),
        }
    }
}

impl Record for TextContent {
    open spec fn names() -> Set<Seq<char>> {
        set!["type"@, "text"@, "annotations"@]
    }

    fn declares(key: &str) -> (b: bool) {
        same_text(key, "type") || same_text(key, "text") || same_text(key, "annotations")
    }
}

impl TextContent {
    /// The declared fields of `v`, each with what is written for it.
    pub open spec fn members(v: TextContentView) -> Members {
        Seq::empty()
            .push(member::<String>("type"@, v.kind))
            .push(member::<String>("text"@, v.text))
            .push(opt_member::<Annotations>("annotations"@, v.annotated.annotations))
    }

    /// The object that stands for `v`: its declared fields, then its other
    /// members.
    #[verifier::opaque]
    pub open spec fn written(v: TextContentView) -> JsonView {
        JsonView::Object(present(Self::members(v)) + v.annotated.extra)
    }

    /// What `j` is read as: an object in which no declared name occurs twice
    /// and every declared field reads; the first field that does not read
    /// gives the error. The other members are kept.
    #[verifier::opaque]
    pub open spec fn read(j: JsonView) -> Result<TextContentView, SchemaError> {
        match j {
            JsonView::Object(o) => {
                let kind = field::<String>(o, "type"@);
                let text = field::<String>(o, "text"@);
                let annotations = opt_field::<Annotations>(o, "annotations"@);
                if collides(o, Self::names()) {
                    Err(SchemaError::FieldCollision)
                } else if kind is Err {
                    Err(kind->Err_0)
                } else if text is Err {
                    Err(text->Err_0)
                } else if annotations is Err {
                    Err(annotations->Err_0)
                } else {
                    Ok(
                        TextContentView {
                            kind: kind->Ok_0,
                            text: text->Ok_0,
                            annotated: AnnotatedView {
                                annotations: annotations->Ok_0,
                                extra: without(o, Self::names()),
                            },
                        },
                    )
                }
            },
            _ => Err(SchemaError::ParamsShapeMismatch),
        }
    }

    /// The declared fields of a valid value have names of their own and
    /// well-formed values.
    pub proof fn lemma_members(v: TextContentView)
        requires
            Self::valid(v),
        ensures
            members_ok(Self::members(v), Self::names()),
    {
        broadcast use group_record;

        reveal_strlit("type");
        reveal_strlit("text");
        reveal_strlit("annotations");
        assert("type"@.len() == 4);
        assert("text"@.len() == 4);
        assert("annotations"@.len() == 11);
        assert("text"@[1] == 'e');
        assert("type"@[1] == 'y');
        String::lemma_round_trip(v.kind);
        String::lemma_round_trip(v.text);
        if v.annotated.annotations is Some {
            Annotations::lemma_round_trip(v.annotated.annotations->Some_0);
        }
    }
}

impl Wire for TextContent {
    open spec fn valid(v: TextContentView) -> bool {
        &&& String::valid(v.kind)
        &&& String::valid(v.text)
        &&& valid_opt::<Annotations>(v.annotated.annotations)
        &&& fields_wf(v.annotated.extra)
        &&& avoids(v.annotated.extra, Self::names())
    }

    open spec fn encode(v: TextContentView) -> JsonView {
        Self::written(v)
    }

    open spec fn decode(j: JsonView) -> Result<TextContentView, SchemaError> {
        Self::read(j)
    }

    fn to_json(&self) -> (j: Json) {
        let mut out = no_members();
        write_field::<String>(&mut out, "type", &self.kind);
        write_field::<String>(&mut out, "text", &self.text);
        write_opt_field::<Annotations>(&mut out, "annotations", &self.annotated.annotations);
        write_rest(&mut out, &self.annotated.extra);
        proof {
            broadcast use group_writer;

            reveal(TextContent::written);
            lemma_object_view(out);
        }
        Json::Object(out)
    }

    fn from_json(j: &Json) -> (r: Result<TextContent, SchemaError>) {
        proof {
            reveal(TextContent::read);
        }
        match j {
            Json::Object(entries) => {
                proof {
                    lemma_object_view(*entries);
                }
                if repeats::<TextContent>(entries) {
                    return Err(SchemaError::FieldCollision);
                }
                let kind = read_field::<String>(entries, "type")?;
                let text = read_field::<String>(entries, "text")?;
                let annotations = read_opt_field::<Annotations>(entries, "annotations")?;
                Ok(
                    TextContent {
                        kind,
                        text,
                        annotated: Annotated { annotations, extra: rest::<TextContent>(entries) },
                    },
                )
            },
            _ => Err(SchemaError::ParamsShapeMismatch),
        }
    }

    proof fn lemma_round_trip(v: TextContentView) {
        reveal(TextContent::written);
        reveal(TextContent::read);
        let m = Self::members(v);
        Self::lemma_members(v);
        lemma_written_record(m, v.annotated.extra, Self::names());
        lemma_member_at(m, Self::names(), 0);
        lemma_member_at(m, Self::names(), 1);
        lemma_member_at(m, Self::names(), 2);
        String::lemma_round_trip(v.kind);
        String::lemma_round_trip(v.text);
        if v.annotated.annotations is Some {
            Annotations::lemma_round_trip(v.annotated.annotations->Some_0);
        }
    }
}

impl WireSound for TextContent {
    proof fn lemma_decoded_valid(j: JsonView) {
        broadcast use group_record;

        reveal(TextContent::written);
        reveal(TextContent::read);
        let o = j->Object_0;
        String::lemma_decoded_valid(get(o, "type"@)->Some_0);
        String::lemma_decoded_valid(get(o, "text"@)->Some_0);
        if get(o, "annotations"@) is Some && get(o, "annotations"@) != Some(JsonView::Null) {
            Annotations::lemma_decoded_valid(get(o, "annotations"@)->Some_0);
        }
        lemma_without_members(o, Self::names());
    }
}

impl Layout for TextContent {
    open spec fn layout(v: TextContentView) -> Members {
        Self::members(v)
    }

    open spec fn others(v: TextContentView) -> Fields {
        v.annotated.extra
    }

    proof fn lemma_layout(v: TextContentView) {
        reveal(TextContent::written);
        Self::lemma_members(v);
    }
}

/// An image, as base64 text with its media type.
#[derive(Debug, Clone)]
pub struct ImageContent {
    pub kind: String,
    pub data: String,
    pub mime_type: String,
    pub annotated: Annotated,
}

/// [`ImageContent`] as specifications see it.
pub struct ImageContentView {
    pub kind: Seq<char>,
    pub data: Seq<char>,
    pub mime_type: Seq<char>,
    pub annotated: AnnotatedView,
}

impl DeepView for ImageContent {
    type V = ImageContentView;

    open spec fn deep_view(&self) -> ImageContentView {
        ImageContentView {
            kind: self.kind.deep_view(),
            data: self.data.deep_view(),
            mime_type: self.mime_type.deep_view(),
            annotated: self.annotated.deep_view(),
        }
    }
}

impl Record for ImageContent {
    open spec fn names() -> Set<Seq<char>> {
        set!["type"@, "data"@, "mimeType"@, "annotations"@]
    }

    fn declares(key: &str) -> (b: bool) {
        same_text(key, "type")
            || same_text(key, "data")
            || same_text(key, "mimeType")
            || same_text(key, "annotations")
    }
}

impl ImageContent {
    /// The declared fields of `v`, each with what is written for it.
    pub open spec fn members(v: ImageContentView) -> Members {
        Seq::empty()
            .push(member::<String>("type"@, v.kind))
            .push(member::<String>("data"@, v.data))
            .push(member::<String>("mimeType"@, v.mime_type))
            .push(opt_member::<Annotations>("annotations"@, v.annotated.annotations))
    }

    /// The object that stands for `v`: its declared fields, then its other
    /// members.
    #[verifier::opaque]
    pub open spec fn written(v: ImageContentView) -> JsonView {
        JsonView::Object(present(Self::members(v)) + v.annotated.extra)
    }

    /// What `j` is read as: an object in which no declared name occurs twice
    /// and every declared field reads; the first field that does not read
    /// gives the error. The other members are kept.
    #[verifier::opaque]
    pub open spec fn read(j: JsonView) -> Result<ImageContentView, SchemaError> {
        match j {
            JsonView::Object(o) => {
                let kind = field::<String>(o, "type"@);
                let data = field::<String>(o, "data"@);
                let mime_type = field::<String>(o, "mimeType"@);
                let annotations = opt_field::<Annotations>(o, "annotations"@);
                if collides(o, Self::names()) {
                    Err(SchemaError::FieldCollision)
                } else if kind is Err {
                    Err(kind->Err_0)
                } else if data is Err {
                    Err(data->Err_0)
                } else if mime_type is Err {
                    Err(mime_type->Err_0)
                } else if annotations is Err {
                    Err(annotations->Err_0)
                } else {
                    Ok(
                        ImageContentView {
                            kind: kind->Ok_0,
                            data: data->Ok_0,
                            mime_type: mime_type->Ok_0,
                            annotated: AnnotatedView {
                                annotations: annotations->Ok_0,
                                extra: without(o, Self::names()),
                            },
                        },
                    )
                }
            },
            _ => Err(SchemaError::ParamsShapeMismatch),
        }
    }

    /// The declared fields of a valid value have names of their own and
    /// well-formed values.
    pub proof fn lemma_members(v: ImageContentView)
        requires
            Self::valid(v),
        ensures
            members_ok(Self::members(v), Self::names()),
    {
        broadcast use group_record;

        reveal_strlit("type");
        reveal_strlit("data");
        reveal_strlit("mimeType");
        reveal_strlit("annotations");
        assert("type"@.len() == 4);
        assert("data"@.len() == 4);
        assert("mimeType"@.len() == 8);
        assert("annotations"@.len() == 11);
        assert("data"@[0] == 'd');
        assert("type"@[0] == 't');
        String::lemma_round_trip(v.kind);
        String::lemma_round_trip(v.data);
        String::lemma_round_trip(v.mime_type);
        if v.annotated.annotations is Some {
            Annotations::lemma_round_trip(v.annotated.annotations->Some_0);
        }
    }
}

impl Wire for ImageContent {
    open spec fn valid(v: ImageContentView) -> bool {
        &&& String::valid(v.kind)
        &&& String::valid(v.data)
        &&& String::valid(v.mime_type)
        &&& valid_opt::<Annotations>(v.annotated.annotations)
        &&& fields_wf(v.annotated.extra)
        &&& avoids(v.annotated.extra, Self::names())
    }

    open spec fn encode(v: ImageContentView) -> JsonView {
        Self::written(v)
    }

    open spec fn decode(j: JsonView) -> Result<ImageContentView, SchemaError> {
        Self::read(j)
    }

    fn to_json(&self) -> (j: Json) {
        let mut out = no_members();
        write_field::<String>(&mut out, "type", &self.kind);
        write_field::<String>(&mut out, "data", &self.data);
        write_field::<String>(&mut out, "mimeType", &self.mime_type);
        write_opt_field::<Annotations>(&mut out, "annotations", &self.annotated.annotations);
        write_rest(&mut out, &self.annotated.extra);
        proof {
            broadcast use group_writer;

            reveal(ImageContent::written);
            lemma_object_view(out);
        }
        Json::Object(out)
    }

    fn from_json(j: &Json) -> (r: Result<ImageContent, SchemaError>) {
        proof {
            reveal(ImageContent::read);
        }
        match j {
            Json::Object(entries) => {
                proof {
                    lemma_object_view(*entries);
                }
                if repeats::<ImageContent>(entries) {
                    return Err(SchemaError::FieldCollision);
                }
                let kind = read_field::<String>(entries, "type")?;
                let data = read_field::<String>(entries, "data")?;
                let mime_type = read_field::<String>(entries, "mimeType")?;
                let annotations = read_opt_field::<Annotations>(entries, "annotations")?;
                Ok(
                    ImageContent {
                        kind,
                        data,
                        mime_type,
                        annotated: Annotated { annotations, extra: rest::<ImageContent>(entries) },
                    },
                )
            },
            _ => Err(SchemaError::ParamsShapeMismatch),
        }
    }

    proof fn lemma_round_trip(v: ImageContentView) {
        reveal(ImageContent::written);
        reveal(ImageContent::read);
        let m = Self::members(v);
        Self::lemma_members(v);
        lemma_written_record(m, v.annotated.extra, Self::names());
        lemma_member_at(m, Self::names(), 0);
        lemma_member_at(m, Self::names(), 1);
        lemma_member_at(m, Self::names(), 2);
        lemma_member_at(m, Self::names(), 3);
        String::lemma_round_trip(v.kind);
        String::lemma_round_trip(v.data);
        String::lemma_round_trip(v.mime_type);
        if v.annotated.annotations is Some {
            Annotations::lemma_round_trip(v.annotated.annotations->Some_0);
        }
    }
}

impl WireSound for ImageContent {
    proof fn lemma_decoded_valid(j: JsonView) {
        broadcast use group_record;

        reveal(ImageContent::written);
        reveal(ImageContent::read);
        let o = j->Object_0;
        String::lemma_decoded_valid(get(o, "type"@)->Some_0);
        String::lemma_decoded_valid(get(o, "data"@)->Some_0);
        String::lemma_decoded_valid(get(o, "mimeType"@)->Some_0);
        if get(o, "annotations"@) is Some && get(o, "annotations"@) != Some(JsonView::Null) {
            Annotations::lemma_decoded_valid(get(o, "annotations"@)->Some_0);
        }
        lemma_without_members(o, Self::names());
    }
}

impl Layout for ImageContent {
    open spec fn layout(v: ImageContentView) -> Members {
        Self::members(v)
    }

    open spec fn others(v: ImageContentView) -> Fields {
        v.annotated.extra
    }

    proof fn lemma_layout(v: ImageContentView) {
        reveal(ImageContent::written);
        Self::lemma_members(v);
    }
}

/// The parameters of a request whose answer comes in pages.
#[derive(Debug, Clone)]
pub struct PaginatedParams {
    pub _meta: Option<RequestMeta>,
    pub cursor: Option<String>,
    pub extra: JsonObject,
}

/// [`PaginatedParams`] as specifications see it.
pub struct PaginatedParamsView {
    pub _meta: Option<RequestMetaView>,
    pub cursor: Option<Seq<char>>,
    pub extra: Fields,
}

impl DeepView for PaginatedParams {
    type V = PaginatedParamsView;

    open spec fn deep_view(&self) -> PaginatedParamsView {
        PaginatedParamsView {
            _meta: self._meta.deep_view(),
            cursor: self.cursor.deep_view(),
            extra: self.extra.deep_view(),
        }
    }
}

impl Record for PaginatedParams {
    open spec fn names() -> Set<Seq<char>> {
        set!["_meta"@, "cursor"@]
    }

    fn declares(key: &str) -> (b: bool) {
        same_text(key, "_meta") || same_text(key, "cursor")
    }
}

impl PaginatedParams {
    /// The declared fields of `v`, each with what is written for it.
    pub open spec fn members(v: PaginatedParamsView) -> Members {
        Seq::empty()
            .push(opt_member::<RequestMeta>("_meta"@, v._meta))
            .push(opt_member::<String>("cursor"@, v.cursor))
    }

    /// The object that stands for `v`: its declared fields, then its other
    /// members.
    #[verifier::opaque]
    pub open spec fn written(v: PaginatedParamsView) -> JsonView {
        JsonView::Object(present(Self::members(v)) + v.extra)
    }

    /// What `j` is read as: an object in which no declared name occurs twice
    /// and every declared field reads; the first field that does not read
    /// gives the error. The other members are kept.
    #[verifier::opaque]
    pub open spec fn read(j: JsonView) -> Result<PaginatedParamsView, SchemaError> {
        match j {
            JsonView::Object(o) => {
                let _meta = opt_field::<RequestMeta>(o, "_meta"@);
                let cursor = opt_field::<String>(o, "cursor"@);
                if collides(o, Self::names()) {
                    Err(SchemaError::FieldCollision)
                } else if _meta is Err {
                    Err(_meta->Err_0)
                } else if cursor is Err {
                    Err(cursor->Err_0)
                } else {
                    Ok(
                        PaginatedParamsView {
                            _meta: _meta->Ok_0,
                            cursor: cursor->Ok_0,
                            extra: without(o, Self::names()),
                        },
                    )
                }
            },
            _ => Err(SchemaError::ParamsShapeMismatch),
        }
    }

    /// The declared fields of a valid value have names of their own and
    /// well-formed values.
    pub proof fn lemma_members(v: PaginatedParamsView)
        requires
            Self::valid(v),
        ensures
            members_ok(Self::members(v), Self::names()),
    {
        broadcast use group_record;

        reveal_strlit("_meta");
        reveal_strlit("cursor");
        assert("_meta"@.len() == 5);
        assert("cursor"@.len() == 6);
        if v._meta is Some {
            RequestMeta::lemma_round_trip(v._meta->Some_0);
        }
        if v.cursor is Some {
            String::lemma_round_trip(v.cursor->Some_0);
        }
    }
}

impl Wire for PaginatedParams {
    open spec fn valid(v: PaginatedParamsView) -> bool {
        &&& valid_opt::<RequestMeta>(v._meta)
        &&& valid_opt::<String>(v.cursor)
        &&& fields_wf(v.extra)
        &&& avoids(v.extra, Self::names())
    }

    open spec fn encode(v: PaginatedParamsView) -> JsonView {
        Self::written(v)
    }

    open spec fn decode(j: JsonView) -> Result<PaginatedParamsView, SchemaError> {
        Self::read(j)
    }

    fn to_json(&self) -> (j: Json) {
        let mut out = no_members();
        write_opt_field::<RequestMeta>(&mut out, "_meta", &self._meta);
        write_opt_field::<String>(&mut out, "cursor", &self.cursor);
        write_rest(&mut out, &self.extra);
        proof {
            broadcast use group_writer;

            reveal(PaginatedParams::written);
            lemma_object_view(out);
        }
        Json::Object(out)
    }

    fn from_json(j: &Json) -> (r: Result<PaginatedParams, SchemaError>) {
        proof {
            reveal(PaginatedParams::read);
        }
        match j {
            Json::Object(entries) => {
                proof {
                    lemma_object_view(*entries);
                }
                if repeats::<PaginatedParams>(entries) {
                    return Err(SchemaError::FieldCollision);
                }
                let _meta = read_opt_field::<RequestMeta>(entries, "_meta")?;
                let cursor = read_opt_field::<String>(entries, "cursor")?;
                Ok(PaginatedParams { _meta, cursor, extra: rest::<PaginatedParams>(entries) })
            },
            _ => Err(SchemaError::ParamsShapeMismatch),
        }
    }

    proof fn lemma_round_trip(v: PaginatedParamsView) {
        reveal(PaginatedParams::written);
        reveal(PaginatedParams::read);
        let m = Self::members(v);
        Self::lemma_members(v);
        lemma_written_record(m, v.extra, Self::names());
        lemma_member_at(m, Self::names(), 0);
        lemma_member_at(m, Self::names(), 1);
        if v._meta is Some {
            RequestMeta::lemma_round_trip(v._meta->Some_0);
        }
        if v.cursor is Some {
            String::lemma_round_trip(v.cursor->Some_0);
        }
    }
}

impl WireSound for PaginatedParams {
    proof fn lemma_decoded_valid(j: JsonView) {
        broadcast use group_record;

        reveal(PaginatedParams::written);
        reveal(PaginatedParams::read);
        let o = j->Object_0;
        if get(o, "_meta"@) is Some && get(o, "_meta"@) != Some(JsonView::Null) {
            RequestMeta::lemma_decoded_valid(get(o, "_meta"@)->Some_0);
        }
        if get(o, "cursor"@) is Some && get(o, "cursor"@) != Some(JsonView::Null) {
            String::lemma_decoded_valid(get(o, "cursor"@)->Some_0);
        }
        lemma_without_members(o, Self::names());
    }
}

impl Layout for PaginatedParams {
    open spec fn layout(v: PaginatedParamsView) -> Members {
        Self::members(v)
    }

    open spec fn others(v: PaginatedParamsView) -> Fields {
        v.extra
    }

    proof fn lemma_layout(v: PaginatedParamsView) {
        reveal(PaginatedParams::written);
        Self::lemma_members(v);
    }
}

/// A result that comes in pages.
#[derive(Debug, Clone)]
pub struct PaginatedResult {
    pub meta: Option<JsonObject>,
    pub next_cursor: Option<String>,
    pub extra: JsonObject,
}

/// [`PaginatedResult`] as specifications see it.
pub struct PaginatedResultView {
    pub meta: Option<Fields>,
    pub next_cursor: Option<Seq<char>>,
    pub extra: Fields,
}

impl DeepView for PaginatedResult {
    type V = PaginatedResultView;

    open spec fn deep_view(&self) -> PaginatedResultView {
        PaginatedResultView {
            meta: self.meta.deep_view(),
            next_cursor: self.next_cursor.deep_view(),
            extra: self.extra.deep_view(),
        }
    }
}

impl Record for PaginatedResult {
    open spec fn names() -> Set<Seq<char>> {
        set!["_meta"@, "nextCursor"@]
    }

    fn declares(key: &str) -> (b: bool) {
        same_text(key, "_meta") || same_text(key, "nextCursor")
    }
}

impl PaginatedResult {
    /// The declared fields of `v`, each with what is written for it.
    pub open spec fn members(v: PaginatedResultView) -> Members {
        Seq::empty()
            .push(opt_member::<JsonObject>("_meta"@, v.meta))
            .push(opt_member::<String>("nextCursor"@, v.next_cursor))
    }

    /// The object that stands for `v`: its declared fields, then its other
    /// members.
    #[verifier::opaque]
    pub open spec fn written(v: PaginatedResultView) -> JsonView {
        JsonView::Object(present(Self::members(v)) + v.extra)
    }

    /// What `j` is read as: an object in which no declared name occurs twice
    /// and every declared field reads; the first field that does not read
    /// gives the error. The other members are kept.
    #[verifier::opaque]
    pub open spec fn read(j: JsonView) -> Result<PaginatedResultView, SchemaError> {
        match j {
            JsonView::Object(o) => {
                let meta = opt_field::<JsonObject>(o, "_meta"@);
                let next_cursor = opt_field::<String>(o, "nextCursor"@);
                if collides(o, Self::names()) {
                    Err(SchemaError::FieldCollision)
                } else if meta is Err {
                    Err(meta->Err_0)
                } else if next_cursor is Err {
                    Err(next_cursor->Err_0)
                } else {
                    Ok(
                        PaginatedResultView {
                            meta: meta->Ok_0,
                            next_cursor: next_cursor->Ok_0,
                            extra: without(o, Self::names()),
                        },
                    )
                }
            },
            _ => Err(SchemaError::ParamsShapeMismatch),
        }
    }

    /// The declared fields of a valid value have names of their own and
    /// well-formed values.
    pub proof fn lemma_members(v: PaginatedResultView)
        requires
            Self::valid(v),
        ensures
            members_ok(Self::members(v), Self::names()),
    {
        broadcast use group_record;

        reveal_strlit("_meta");
        reveal_strlit("nextCursor");
        assert("_meta"@.len() == 5);
        assert("nextCursor"@.len() == 10);
        if v.meta is Some {
            JsonObject::lemma_round_trip(v.meta->Some_0);
        }
        if v.next_cursor is Some {
            String::lemma_round_trip(v.next_cursor->Some_0);
        }
    }
}

impl Wire for PaginatedResult {
    open spec fn valid(v: PaginatedResultView) -> bool {
        &&& valid_opt::<JsonObject>(v.meta)
        &&& valid_opt::<String>(v.next_cursor)
        &&& fields_wf(v.extra)
        &&& avoids(v.extra, Self::names())
    }

    open spec fn encode(v: PaginatedResultView) -> JsonView {
        Self::written(v)
    }

    open spec fn decode(j: JsonView) -> Result<PaginatedResultView, SchemaError> {
        Self::read(j)
    }

    fn to_json(&self) -> (j: Json) {
        let mut out = no_members();
        write_opt_field::<JsonObject>(&mut out, "_meta", &self.meta);
        write_opt_field::<String>(&mut out, "nextCursor", &self.next_cursor);
        write_rest(&mut out, &self.extra);
        proof {
            broadcast use group_writer;

            reveal(PaginatedResult::written);
            lemma_object_view(out);
        }
        Json::Object(out)
    }

    fn from_json(j: &Json) -> (r: Result<PaginatedResult, SchemaError>) {
        proof {
            reveal(PaginatedResult::read);
        }
        match j {
            Json::Object(entries) => {
                proof {
                    lemma_object_view(*entries);
                }
                if repeats::<PaginatedResult>(entries) {
                    return Err(SchemaError::FieldCollision);
                }
                let meta = read_opt_field::<JsonObject>(entries, "_meta")?;
                let next_cursor = read_opt_field::<String>(entries, "nextCursor")?;
                Ok(
                    PaginatedResult {
                        meta,
                        next_cursor,
                        extra: rest::<PaginatedResult>(entries),
                    },
                )
            },
            _ => Err(SchemaError::ParamsShapeMismatch),
        }
    }

    proof fn lemma_round_trip(v: PaginatedResultView) {
        reveal(PaginatedResult::written);
        reveal(PaginatedResult::read);
        let m = Self::members(v);
        Self::lemma_members(v);
        lemma_written_record(m, v.extra, Self::names());
        lemma_member_at(m, Self::names(), 0);
        lemma_member_at(m, Self::names(), 1);
        if v.meta is Some {
            JsonObject::lemma_round_trip(v.meta->Some_0);
        }
        if v.next_cursor is Some {
            String::lemma_round_trip(v.next_cursor->Some_0);
        }
    }
}

impl WireSound for PaginatedResult {
    proof fn lemma_decoded_valid(j: JsonView) {
        broadcast use group_record;

        reveal(PaginatedResult::written);
        reveal(PaginatedResult::read);
        let o = j->Object_0;
        if get(o, "_meta"@) is Some && get(o, "_meta"@) != Some(JsonView::Null) {
            JsonObject::lemma_decoded_valid(get(o, "_meta"@)->Some_0);
        }
        if get(o, "nextCursor"@) is Some && get(o, "nextCursor"@) != Some(JsonView::Null) {
            String::lemma_decoded_valid(get(o, "nextCursor"@)->Some_0);
        }
        lemma_without_members(o, Self::names());
    }
}

impl Layout for PaginatedResult {
    open spec fn layout(v: PaginatedResultView) -> Members {
        Self::members(v)
    }

    open spec fn others(v: PaginatedResultView) -> Fields {
        v.extra
    }

    proof fn lemma_layout(v: PaginatedResultView) {
        reveal(PaginatedResult::written);
        Self::lemma_members(v);
    }
}

} // verus!
