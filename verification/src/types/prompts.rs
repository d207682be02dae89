//! Prompts and the messages they are made of.

use vstd::prelude::*;
use crate::error::SchemaError;
use crate::json::{
    avoids, collides, fields_wf, find, get, lemma_object_view, lemma_without_members, same_text,
    without, Fields, Json, JsonView,
};
use crate::record::{
    field, group_record, group_writer, lemma_member_at, lemma_written_record, member, members_ok,
    no_members, opt_field, opt_member, present, read_field, read_opt_field, repeats, rest,
    valid_opt, with, write_field, write_opt_field, write_rest, JsonObject, Layout, Members,
    Record,
};
use crate::types::common::{
    Annotated, AnnotatedView, Annotations, ImageContent, ImageContentView, Role, TextContent,
    TextContentView,
};
use crate::types::resources::{Resource, ResourceContents, ResourceContentsView};
use crate::string_map::StringMap;
use crate::wire::{Wire, WireSound};

verus! {

/// An argument that a prompt takes.
#[derive(Debug, Clone)]
pub struct PromptArgument {
    pub name: String,
    pub description: Option<String>,
    pub required: Option<bool>,
    pub extra: JsonObject,
}

/// [`PromptArgument`] as specifications see it.
pub struct PromptArgumentView {
    pub name: Seq<char>,
    pub description: Option<Seq<char>>,
    pub required: Option<bool>,
    pub extra: Fields,
}

impl DeepView for PromptArgument {
    type V = PromptArgumentView;

    open spec fn deep_view(&self) -> PromptArgumentView {
        PromptArgumentView {
            name: self.name.deep_view(),
            description: self.description.deep_view(),
            required: self.required.deep_view(),
            extra: self.extra.deep_view(),
        }
    }
}

impl Record for PromptArgument {
    open spec fn names() -> Set<Seq<char>> {
        set!["name"@, "description"@, "required"@]
    }

    fn declares(key: &str) -> (b: bool) {
        same_text(key, "name") || same_text(key, "description") || same_text(key, "required")
    }
}

impl PromptArgument {
    /// The declared fields of `v`, each with what is written for it.
    pub open spec fn members(v: PromptArgumentView) -> Members {
        Seq::empty()
            .push(member::<String>("name"@, v.name))
            .push(opt_member::<String>("description"@, v.description))
            .push(opt_member::<bool>("required"@, v.required))
    }

    /// The object that stands for `v`: its declared fields, then its other
    /// members.
    #[verifier::opaque]
    pub open spec fn written(v: PromptArgumentView) -> JsonView {
        JsonView::Object(present(Self::members(v)) + v.extra)
    }

    /// What `j` is read as: an object in which no declared name occurs twice
    /// and every declared field reads; the first field that does not read
    /// gives the error. The other members are kept.
    #[verifier::opaque]
    pub open spec fn read(j: JsonView) -> Result<PromptArgumentView, SchemaError> {
        match j {
            JsonView::Object(o) => {
                let name = field::<String>(o, "name"@);
                let description = opt_field::<String>(o, "description"@);
                let required = opt_field::<bool>(o, "required"@);
                if collides(o, Self::names()) {
                    Err(SchemaError::FieldCollision)
                } else if name is Err {
                    Err(name->Err_0)
                } else if description is Err {
                    Err(description->Err_0)
                } else if required is Err {
                    Err(required->Err_0)
                } else {
                    Ok(
                        PromptArgumentView {
                            name: name->Ok_0,
                            description: description->Ok_0,
                            required: required->Ok_0,
                            extra: without(o, Self::names()),
                        },
                    )
                }
            },
            _ => Err(SchemaError::ParamsShapeMismatch),
        }
    }

    /// The declared fields of a valid value have names of their own and
    /// well-formed values.
    pub proof fn lemma_members(v: PromptArgumentView)
        requires
            Self::valid(v),
        ensures
            members_ok(Self::members(v), Self::names()),
    {
        broadcast use group_record;

        reveal_strlit("name");
        reveal_strlit("description");
        reveal_strlit("required");
        assert("name"@.len() == 4);
        assert("description"@.len() == 11);
        assert("required"@.len() == 8);
        String::lemma_round_trip(v.name);
        if v.description is Some {
            String::lemma_round_trip(v.description->Some_0);
        }
        if v.required is Some {
            bool::lemma_round_trip(v.required->Some_0);
        }
    }
}

impl Wire for PromptArgument {
    open spec fn valid(v: PromptArgumentView) -> bool {
        &&& String::valid(v.name)
        &&& valid_opt::<String>(v.description)
        &&& valid_opt::<bool>(v.required)
        &&& fields_wf(v.extra)
        &&& avoids(v.extra, Self::names())
    }

    open spec fn encode(v: PromptArgumentView) -> JsonView {
        Self::written(v)
    }

    open spec fn decode(j: JsonView) -> Result<PromptArgumentView, SchemaError> {
        Self::read(j)
    }

    fn to_json(&self) -> (j: Json) {
        let mut out = no_members();
        write_field::<String>(&mut out, "name", &self.name);
        write_opt_field::<String>(&mut out, "description", &self.description);
        write_opt_field::<bool>(&mut out, "required", &self.required);
        write_rest(&mut out, &self.extra);
        proof {
            broadcast use group_writer;

            reveal(PromptArgument::written);
            lemma_object_view(out);
        }
        Json::Object(out)
    }

    fn from_json(j: &Json) -> (r: Result<PromptArgument, SchemaError>) {
        proof {
            reveal(PromptArgument::read);
        }
        match j {
            Json::Object(entries) => {
                proof {
                    lemma_object_view(*entries);
                }
                if repeats::<PromptArgument>(entries) {
                    return Err(SchemaError::FieldCollision);
                }
                let name = read_field::<String>(entries, "name")?;
                let description = read_opt_field::<String>(entries, "description")?;
                let required = read_opt_field::<bool>(entries, "required")?;
                Ok(
                    PromptArgument {
                        name,
                        description,
                        required,
                        extra: rest::<PromptArgument>(entries),
                    },
                )
            },
            _ => Err(SchemaError::ParamsShapeMismatch),
        }
    }

    proof fn lemma_round_trip(v: PromptArgumentView) {
        reveal(PromptArgument::written);
        reveal(PromptArgument::read);
        let m = Self::members(v);
        Self::lemma_members(v);
        lemma_written_record(m, v.extra, Self::names());
        lemma_member_at(m, Self::names(), 0);
        lemma_member_at(m, Self::names(), 1);
        lemma_member_at(m, Self::names(), 2);
        String::lemma_round_trip(v.name);
        if v.description is Some {
            String::lemma_round_trip(v.description->Some_0);
        }
        if v.required is Some {
            bool::lemma_round_trip(v.required->Some_0);
        }
    }
}

impl WireSound for PromptArgument {
    proof fn lemma_decoded_valid(j: JsonView) {
        broadcast use group_record;

        reveal(PromptArgument::written);
        reveal(PromptArgument::read);
        let o = j->Object_0;
        String::lemma_decoded_valid(get(o, "name"@)->Some_0);
        if get(o, "description"@) is Some && get(o, "description"@) != Some(JsonView::Null) {
            String::lemma_decoded_valid(get(o, "description"@)->Some_0);
        }
        if get(o, "required"@) is Some && get(o, "required"@) != Some(JsonView::Null) {
            bool::lemma_decoded_valid(get(o, "required"@)->Some_0);
        }
        lemma_without_members(o, Self::names());
    }
}

impl Layout for PromptArgument {
    open spec fn layout(v: PromptArgumentView) -> Members {
        Self::members(v)
    }

    open spec fn others(v: PromptArgumentView) -> Fields {
        v.extra
    }

    proof fn lemma_layout(v: PromptArgumentView) {
        reveal(PromptArgument::written);
        Self::lemma_members(v);
    }
}

/// A prompt or prompt template.
#[derive(Debug, Clone)]
pub struct Prompt {
    pub name: String,
    pub description: Option<String>,
    pub arguments: Option<Vec<PromptArgument>>,
    pub extra: JsonObject,
}

/// [`Prompt`] as specifications see it.
pub struct PromptView {
    pub name: Seq<char>,
    pub description: Option<Seq<char>>,
    pub arguments: Option<Seq<PromptArgumentView>>,
    pub extra: Fields,
}

impl DeepView for Prompt {
    type V = PromptView;

    open spec fn deep_view(&self) -> PromptView {
        PromptView {
            name: self.name.deep_view(),
            description: self.description.deep_view(),
            arguments: self.arguments.deep_view(),
            extra: self.extra.deep_view(),
        }
    }
}

impl Record for Prompt {
    open spec fn names() -> Set<Seq<char>> {
        set!["name"@, "description"@, "arguments"@]
    }

    fn declares(key: &str) -> (b: bool) {
        same_text(key, "name") || same_text(key, "description") || same_text(key, "arguments")
    }
}

impl Prompt {
    /// The declared fields of `v`, each with what is written for it.
    pub open spec fn members(v: PromptView) -> Members {
        Seq::empty()
            .push(member::<String>("name"@, v.name))
            .push(opt_member::<String>("description"@, v.description))
            .push(opt_member::<Vec<PromptArgument>>("arguments"@, v.arguments))
    }

    /// The object that stands for `v`: its declared fields, then its other
    /// members.
    #[verifier::opaque]
    pub open spec fn written(v: PromptView) -> JsonView {
        JsonView::Object(present(Self::members(v)) + v.extra)
    }

    /// What `j` is read as: an object in which no declared name occurs twice
    /// and every declared field reads; the first field that does not read
    /// gives the error. The other members are kept.
    #[verifier::opaque]
    pub open spec fn read(j: JsonView) -> Result<PromptView, SchemaError> {
        match j {
            JsonView::Object(o) => {
                let name = field::<String>(o, "name"@);
                let description = opt_field::<String>(o, "description"@);
                let arguments = opt_field::<Vec<PromptArgument>>(o, "arguments"@);
                if collides(o, Self::names()) {
                    Err(SchemaError::FieldCollision)
                } else if name is Err {
                    Err(name->Err_0)
                } else if description is Err {
                    Err(description->Err_0)
                } else if arguments is Err {
                    Err(arguments->Err_0)
                } else {
                    Ok(
                        PromptView {
                            name: name->Ok_0,
                            description: description->Ok_0,
                            arguments: arguments->Ok_0,
                            extra: without(o, Self::names()),
                        },
                    )
                }
            },
            _ => Err(SchemaError::ParamsShapeMismatch),
        }
    }

    /// The declared fields of a valid value have names of their own and
    /// well-formed values.
    pub proof fn lemma_members(v: PromptView)
        requires
            Self::valid(v),
        ensures
            members_ok(Self::members(v), Self::names()),
    {
        broadcast use group_record;

        reveal_strlit("name");
        reveal_strlit("description");
        reveal_strlit("arguments");
        assert("name"@.len() == 4);
        assert("description"@.len() == 11);
        assert("arguments"@.len() == 9);
        String::lemma_round_trip(v.name);
        if v.description is Some {
            String::lemma_round_trip(v.description->Some_0);
        }
        if v.arguments is Some {
            Vec::<PromptArgument>::lemma_round_trip(v.arguments->Some_0);
        }
    }
}

impl Wire for Prompt {
    open spec fn valid(v: PromptView) -> bool {
        &&& String::valid(v.name)
        &&& valid_opt::<String>(v.description)
        &&& valid_opt::<Vec<PromptArgument>>(v.arguments)
        &&& fields_wf(v.extra)
        &&& avoids(v.extra, Self::names())
    }

    open spec fn encode(v: PromptView) -> JsonView {
        Self::written(v)
    }

    open spec fn decode(j: JsonView) -> Result<PromptView, SchemaError> {
        Self::read(j)
    }

    fn to_json(&self) -> (j: Json) {
        let mut out = no_members();
        write_field::<String>(&mut out, "name", &self.name);
        write_opt_field::<String>(&mut out, "description", &self.description);
        write_opt_field::<Vec<PromptArgument>>(&mut out, "arguments", &self.arguments);
        write_rest(&mut out, &self.extra);
        proof {
            broadcast use group_writer;

            reveal(Prompt::written);
            lemma_object_view(out);
        }
        Json::Object(out)
    }

    fn from_json(j: &Json) -> (r: Result<Prompt, SchemaError>) {
        proof {
            reveal(Prompt::read);
        }
        match j {
            Json::Object(entries) => {
                proof {
                    lemma_object_view(*entries);
                }
                if repeats::<Prompt>(entries) {
                    return Err(SchemaError::FieldCollision);
                }
                let name = read_field::<String>(entries, "name")?;
                let description = read_opt_field::<String>(entries, "description")?;
                let arguments = read_opt_field::<Vec<PromptArgument>>(entries, "arguments")?;
                Ok(Prompt { name, description, arguments, extra: rest::<Prompt>(entries) })
            },
            _ => Err(SchemaError::ParamsShapeMismatch),
        }
    }

    proof fn lemma_round_trip(v: PromptView) {
        reveal(Prompt::written);
        reveal(Prompt::read);
        let m = Self::members(v);
        Self::lemma_members(v);
        lemma_written_record(m, v.extra, Self::names());
        lemma_member_at(m, Self::names(), 0);
        lemma_member_at(m, Self::names(), 1);
        lemma_member_at(m, Self::names(), 2);
        String::lemma_round_trip(v.name);
        if v.description is Some {
            String::lemma_round_trip(v.description->Some_0);
        }
        if v.arguments is Some {
            Vec::<PromptArgument>::lemma_round_trip(v.arguments->Some_0);
        }
    }
}

impl WireSound for Prompt {
    proof fn lemma_decoded_valid(j: JsonView) {
        broadcast use group_record;

        reveal(Prompt::written);
        reveal(Prompt::read);
        let o = j->Object_0;
        String::lemma_decoded_valid(get(o, "name"@)->Some_0);
        if get(o, "description"@) is Some && get(o, "description"@) != Some(JsonView::Null) {
            String::lemma_decoded_valid(get(o, "description"@)->Some_0);
        }
        if get(o, "arguments"@) is Some && get(o, "arguments"@) != Some(JsonView::Null) {
            Vec::<PromptArgument>::lemma_decoded_valid(get(o, "arguments"@)->Some_0);
        }
        lemma_without_members(o, Self::names());
    }
}

impl Layout for Prompt {
    open spec fn layout(v: PromptView) -> Members {
        Self::members(v)
    }

    open spec fn others(v: PromptView) -> Fields {
        v.extra
    }

    proof fn lemma_layout(v: PromptView) {
        reveal(Prompt::written);
        Self::lemma_members(v);
    }
}

/// The contents of a resource, embedded in a message.
#[derive(Debug, Clone)]
pub struct EmbeddedResource {
    pub kind: String,
    pub resource: ResourceContents,
    pub annotated: Annotated,
}

/// [`EmbeddedResource`] as specifications see it.
pub struct EmbeddedResourceView {
    pub kind: Seq<char>,
    pub resource: ResourceContentsView,
    pub annotated: AnnotatedView,
}

impl DeepView for EmbeddedResource {
    type V = EmbeddedResourceView;

    open spec fn deep_view(&self) -> EmbeddedResourceView {
        EmbeddedResourceView {
            kind: self.kind.deep_view(),
            resource: self.resource.deep_view(),
            annotated: self.annotated.deep_view(),
        }
    }
}

impl Record for EmbeddedResource {
    open spec fn names() -> Set<Seq<char>> {
        set!["type"@, "resource"@, "annotations"@]
    }

    fn declares(key: &str) -> (b: bool) {
        same_text(key, "type") || same_text(key, "resource") || same_text(key, "annotations")
    }
}

impl EmbeddedResource {
    /// The declared fields of `v`, each with what is written for it.
    pub open spec fn members(v: EmbeddedResourceView) -> Members {
        Seq::empty()
            .push(member::<String>("type"@, v.kind))
            .push(member::<ResourceContents>("resource"@, v.resource))
            .push(opt_member::<Annotations>("annotations"@, v.annotated.annotations))
    }

    /// The object that stands for `v`: its declared fields, then its other
    /// members.
    #[verifier::opaque]
    pub open spec fn written(v: EmbeddedResourceView) -> JsonView {
        JsonView::Object(present(Self::members(v)) + v.annotated.extra)
    }

    /// What `j` is read as: an object in which no declared name occurs twice
    /// and every declared field reads; the first field that does not read
    /// gives the error. The other members are kept.
    #[verifier::opaque]
    pub open spec fn read(j: JsonView) -> Result<EmbeddedResourceView, SchemaError> {
        match j {
            JsonView::Object(o) => {
                let kind = field::<String>(o, "type"@);
                let resource = field::<ResourceContents>(o, "resource"@);
                let annotations = opt_field::<Annotations>(o, "annotations"@);
                if collides(o, Self::names()) {
                    Err(SchemaError::FieldCollision)
                } else if kind is Err {
                    Err(kind->Err_0)
                } else if resource is Err {
                    Err(resource->Err_0)
                } else if annotations is Err {
                    Err(annotations->Err_0)
                } else {
                    Ok(
                        EmbeddedResourceView {
                            kind: kind->Ok_0,
                            resource: resource->Ok_0,
                            annotated: AnnotatedView {
                                annotations: annotations->Ok_0,
                                extra: without(o, Self::names()),
                            },
                        },
                    )
                }
            },
            _ => Err(SchemaError::ParamsShapeMismatch),
        }
    }

    /// The declared fields of a valid value have names of their own and
    /// well-formed values.
    pub proof fn lemma_members(v: EmbeddedResourceView)
        requires
            Self::valid(v),
        ensures
            members_ok(Self::members(v), Self::names()),
    {
        broadcast use group_record;

        reveal_strlit("type");
        reveal_strlit("resource");
        reveal_strlit("annotations");
        assert("type"@.len() == 4);
        assert("resource"@.len() == 8);
        assert("annotations"@.len() == 11);
        String::lemma_round_trip(v.kind);
        ResourceContents::lemma_round_trip(v.resource);
        if v.annotated.annotations is Some {
            Annotations::lemma_round_trip(v.annotated.annotations->Some_0);
        }
    }
}

impl Wire for EmbeddedResource {
    open spec fn valid(v: EmbeddedResourceView) -> bool {
        &&& String::valid(v.kind)
        &&& ResourceContents::valid(v.resource)
        &&& valid_opt::<Annotations>(v.annotated.annotations)
        &&& fields_wf(v.annotated.extra)
        &&& avoids(v.annotated.extra, Self::names())
    }

    open spec fn encode(v: EmbeddedResourceView) -> JsonView {
        Self::written(v)
    }

    open spec fn decode(j: JsonView) -> Result<EmbeddedResourceView, SchemaError> {
        Self::read(j)
    }

    fn to_json(&self) -> (j: Json) {
        let mut out = no_members();
        write_field::<String>(&mut out, "type", &self.kind);
        write_field::<ResourceContents>(&mut out, "resource", &self.resource);
        write_opt_field::<Annotations>(&mut out, "annotations", &self.annotated.annotations);
        write_rest(&mut out, &self.annotated.extra);
        proof {
            broadcast use group_writer;

            reveal(EmbeddedResource::written);
            lemma_object_view(out);
        }
        Json::Object(out)
    }

    fn from_json(j: &Json) -> (r: Result<EmbeddedResource, SchemaError>) {
        proof {
            reveal(EmbeddedResource::read);
        }
        match j {
            Json::Object(entries) => {
                proof {
                    lemma_object_view(*entries);
                }
                if repeats::<EmbeddedResource>(entries) {
                    return Err(SchemaError::FieldCollision);
                }
                let kind = read_field::<String>(entries, "type")?;
                let resource = read_field::<ResourceContents>(entries, "resource")?;
                let annotations = read_opt_field::<Annotations>(entries, "annotations")?;
                Ok(
                    EmbeddedResource {
                        kind,
                        resource,
                        annotated: Annotated {
                            annotations,
                            extra: rest::<EmbeddedResource>(entries),
                        },
                    },
                )
            },
            _ => Err(SchemaError::ParamsShapeMismatch),
        }
    }

    proof fn lemma_round_trip(v: EmbeddedResourceView) {
        reveal(EmbeddedResource::written);
        reveal(EmbeddedResource::read);
        let m = Self::members(v);
        Self::lemma_members(v);
        lemma_written_record(m, v.annotated.extra, Self::names());
        lemma_member_at(m, Self::names(), 0);
        lemma_member_at(m, Self::names(), 1);
        lemma_member_at(m, Self::names(), 2);
        String::lemma_round_trip(v.kind);
        ResourceContents::lemma_round_trip(v.resource);
        if v.annotated.annotations is Some {
            Annotations::lemma_round_trip(v.annotated.annotations->Some_0);
        }
    }
}

impl WireSound for EmbeddedResource {
    proof fn lemma_decoded_valid(j: JsonView) {
        broadcast use group_record;

        reveal(EmbeddedResource::written);
        reveal(EmbeddedResource::read);
        let o = j->Object_0;
        String::lemma_decoded_valid(get(o, "type"@)->Some_0);
        ResourceContents::lemma_decoded_valid(get(o, "resource"@)->Some_0);
        if get(o, "annotations"@) is Some && get(o, "annotations"@) != Some(JsonView::Null) {
            Annotations::lemma_decoded_valid(get(o, "annotations"@)->Some_0);
        }
        lemma_without_members(o, Self::names());
    }
}

impl Layout for EmbeddedResource {
    open spec fn layout(v: EmbeddedResourceView) -> Members {
        Self::members(v)
    }

    open spec fn others(v: EmbeddedResourceView) -> Fields {
        v.annotated.extra
    }

    proof fn lemma_layout(v: EmbeddedResourceView) {
        reveal(EmbeddedResource::written);
        Self::lemma_members(v);
    }
}

/// One message of a prompt.
#[derive(Debug, Clone)]
pub struct PromptMessage {
    pub role: Role,
    pub content: PromptContent,
}

/// [`PromptMessage`] as specifications see it.
pub struct PromptMessageView {
    pub role: Role,
    pub content: PromptContentView,
}

impl DeepView for PromptMessage {
    type V = PromptMessageView;

    open spec fn deep_view(&self) -> PromptMessageView {
        PromptMessageView {
            role: self.role.deep_view(),
            content: self.content.deep_view(),
        }
    }
}

impl Record for PromptMessage {
    open spec fn names() -> Set<Seq<char>> {
        set!["role"@, "content"@]
    }

    fn declares(key: &str) -> (b: bool) {
        same_text(key, "role") || same_text(key, "content")
    }
}

impl PromptMessage {
    /// The declared fields of `v`, each with what is written for it.
    pub open spec fn members(v: PromptMessageView) -> Members {
        Seq::empty()
            .push(member::<Role>("role"@, v.role))
            .push(member::<PromptContent>("content"@, v.content))
    }

    /// The object that stands for `v`: its declared fields.
    #[verifier::opaque]
    pub open spec fn written(v: PromptMessageView) -> JsonView {
        JsonView::Object(present(Self::members(v)))
    }

    /// What `j` is read as: an object in which no declared name occurs twice
    /// and every declared field reads; the first field that does not read
    /// gives the error. Other members are passed over.
    #[verifier::opaque]
    pub open spec fn read(j: JsonView) -> Result<PromptMessageView, SchemaError> {
        match j {
            JsonView::Object(o) => {
                let role = field::<Role>(o, "role"@);
                let content = field::<PromptContent>(o, "content"@);
                if collides(o, Self::names()) {
                    Err(SchemaError::FieldCollision)
                } else if role is Err {
                    Err(role->Err_0)
                } else if content is Err {
                    Err(content->Err_0)
                } else {
                    Ok(
                        PromptMessageView {
                            role: role->Ok_0,
                            content: content->Ok_0,
                        },
                    )
                }
            },
            _ => Err(SchemaError::ParamsShapeMismatch),
        }
    }

    /// The declared fields of a valid value have names of their own and
    /// well-formed values.
    pub proof fn lemma_members(v: PromptMessageView)
        requires
            Self::valid(v),
        ensures
            members_ok(Self::members(v), Self::names()),
    {
        broadcast use group_record;

        reveal_strlit("role");
        reveal_strlit("content");
        assert("role"@.len() == 4);
        assert("content"@.len() == 7);
        Role::lemma_round_trip(v.role);
        PromptContent::lemma_round_trip(v.content);
    }
}

impl Wire for PromptMessage {
    open spec fn valid(v: PromptMessageView) -> bool {
        &&& Role::valid(v.role)
        &&& PromptContent::valid(v.content)
    }

    open spec fn encode(v: PromptMessageView) -> JsonView {
        Self::written(v)
    }

    open spec fn decode(j: JsonView) -> Result<PromptMessageView, SchemaError> {
        Self::read(j)
    }

    fn to_json(&self) -> (j: Json) {
        let mut out = no_members();
        write_field::<Role>(&mut out, "role", &self.role);
        write_field::<PromptContent>(&mut out, "content", &self.content);
        proof {
            broadcast use group_writer;

            reveal(PromptMessage::written);
            lemma_object_view(out);
        }
        Json::Object(out)
    }

    fn from_json(j: &Json) -> (r: Result<PromptMessage, SchemaError>) {
        proof {
            reveal(PromptMessage::read);
        }
        match j {
            Json::Object(entries) => {
                proof {
                    lemma_object_view(*entries);
                }
                if repeats::<PromptMessage>(entries) {
                    return Err(SchemaError::FieldCollision);
                }
                let role = read_field::<Role>(entries, "role")?;
                let content = read_field::<PromptContent>(entries, "content")?;
                Ok(PromptMessage { role, content })
            },
            _ => Err(SchemaError::ParamsShapeMismatch),
        }
    }

    proof fn lemma_round_trip(v: PromptMessageView) {
        reveal(PromptMessage::written);
        reveal(PromptMessage::read);
        let m = Self::members(v);
        Self::lemma_members(v);
        lemma_written_record(m, Seq::empty(), Self::names());
        lemma_member_at(m, Self::names(), 0);
        lemma_member_at(m, Self::names(), 1);
        Role::lemma_round_trip(v.role);
        PromptContent::lemma_round_trip(v.content);
        assert(present(m) + Seq::empty() =~= present(m));
    }
}

impl WireSound for PromptMessage {
    proof fn lemma_decoded_valid(j: JsonView) {
        broadcast use group_record;

        reveal(PromptMessage::written);
        reveal(PromptMessage::read);
        let o = j->Object_0;
        Role::lemma_decoded_valid(get(o, "role"@)->Some_0);
        PromptContent::lemma_decoded_valid(get(o, "content"@)->Some_0);
    }
}

impl Layout for PromptMessage {
    open spec fn layout(v: PromptMessageView) -> Members {
        Self::members(v)
    }

    open spec fn others(v: PromptMessageView) -> Fields {
        Seq::empty()
    }

    proof fn lemma_layout(v: PromptMessageView) {
        reveal(PromptMessage::written);
        Self::lemma_members(v);
        assert(Self::layout(v) == Self::members(v));
        assert(Self::others(v) == Seq::<(Seq<char>, JsonView)>::empty());
        assert(fields_wf(Seq::<(Seq<char>, JsonView)>::empty()));
        assert(present(Self::members(v)) + Seq::empty() =~= present(Self::members(v)));
    }
}

/// The parameters of `prompts/get`.
#[derive(Debug, Clone)]
pub struct GetPromptParams {
    pub name: String,
    pub arguments: Option<StringMap>,
    pub extra: JsonObject,
}

/// [`GetPromptParams`] as specifications see it.
pub struct GetPromptParamsView {
    pub name: Seq<char>,
    pub arguments: Option<Seq<(Seq<char>, Seq<char>)>>,
    pub extra: Fields,
}

impl DeepView for GetPromptParams {
    type V = GetPromptParamsView;

    open spec fn deep_view(&self) -> GetPromptParamsView {
        GetPromptParamsView {
            name: self.name.deep_view(),
            arguments: self.arguments.deep_view(),
            extra: self.extra.deep_view(),
        }
    }
}

impl Record for GetPromptParams {
    open spec fn names() -> Set<Seq<char>> {
        set!["name"@, "arguments"@]
    }

    fn declares(key: &str) -> (b: bool) {
        same_text(key, "name") || same_text(key, "arguments")
    }
}

impl GetPromptParams {
    /// The declared fields of `v`, each with what is written for it.
    pub open spec fn members(v: GetPromptParamsView) -> Members {
        Seq::empty()
            .push(member::<String>("name"@, v.name))
            .push(opt_member::<StringMap>("arguments"@, v.arguments))
    }

    /// The object that stands for `v`: its declared fields, then its other
    /// members.
    #[verifier::opaque]
    pub open spec fn written(v: GetPromptParamsView) -> JsonView {
        JsonView::Object(present(Self::members(v)) + v.extra)
    }

    /// What `j` is read as: an object in which no declared name occurs twice
    /// and every declared field reads; the first field that does not read
    /// gives the error. The other members are kept.
    #[verifier::opaque]
    pub open spec fn read(j: JsonView) -> Result<GetPromptParamsView, SchemaError> {
        match j {
            JsonView::Object(o) => {
                let name = field::<String>(o, "name"@);
                let arguments = opt_field::<StringMap>(o, "arguments"@);
                if collides(o, Self::names()) {
                    Err(SchemaError::FieldCollision)
                } else if name is Err {
                    Err(name->Err_0)
                } else if arguments is Err {
                    Err(arguments->Err_0)
                } else {
                    Ok(
                        GetPromptParamsView {
                            name: name->Ok_0,
                            arguments: arguments->Ok_0,
                            extra: without(o, Self::names()),
                        },
                    )
                }
            },
            _ => Err(SchemaError::ParamsShapeMismatch),
        }
    }

    /// The declared fields of a valid value have names of their own and
    /// well-formed values.
    pub proof fn lemma_members(v: GetPromptParamsView)
        requires
            Self::valid(v),
        ensures
            members_ok(Self::members(v), Self::names()),
    {
        broadcast use group_record;

        reveal_strlit("name");
        reveal_strlit("arguments");
        assert("name"@.len() == 4);
        assert("arguments"@.len() == 9);
        String::lemma_round_trip(v.name);
        if v.arguments is Some {
            StringMap::lemma_round_trip(v.arguments->Some_0);
        }
    }
}

impl Wire for GetPromptParams {
    open spec fn valid(v: GetPromptParamsView) -> bool {
        &&& String::valid(v.name)
        &&& valid_opt::<StringMap>(v.arguments)
        &&& fields_wf(v.extra)
        &&& avoids(v.extra, Self::names())
    }

    open spec fn encode(v: GetPromptParamsView) -> JsonView {
        Self::written(v)
    }

    open spec fn decode(j: JsonView) -> Result<GetPromptParamsView, SchemaError> {
        Self::read(j)
    }

    fn to_json(&self) -> (j: Json) {
        let mut out = no_members();
        write_field::<String>(&mut out, "name", &self.name);
        write_opt_field::<StringMap>(&mut out, "arguments", &self.arguments);
        write_rest(&mut out, &self.extra);
        proof {
            broadcast use group_writer;

            reveal(GetPromptParams::written);
            lemma_object_view(out);
        }
        Json::Object(out)
    }

    fn from_json(j: &Json) -> (r: Result<GetPromptParams, SchemaError>) {
        proof {
            reveal(GetPromptParams::read);
        }
        match j {
            Json::Object(entries) => {
                proof {
                    lemma_object_view(*entries);
                }
                if repeats::<GetPromptParams>(entries) {
                    return Err(SchemaError::FieldCollision);
                }
                let name = read_field::<String>(entries, "name")?;
                let arguments = read_opt_field::<StringMap>(entries, "arguments")?;
                Ok(GetPromptParams { name, arguments, extra: rest::<GetPromptParams>(entries) })
            },
            _ => Err(SchemaError::ParamsShapeMismatch),
        }
    }

    proof fn lemma_round_trip(v: GetPromptParamsView) {
        reveal(GetPromptParams::written);
        reveal(GetPromptParams::read);
        let m = Self::members(v);
        Self::lemma_members(v);
        lemma_written_record(m, v.extra, Self::names());
        lemma_member_at(m, Self::names(), 0);
        lemma_member_at(m, Self::names(), 1);
        String::lemma_round_trip(v.name);
        if v.arguments is Some {
            StringMap::lemma_round_trip(v.arguments->Some_0);
        }
    }
}

impl WireSound for GetPromptParams {
    proof fn lemma_decoded_valid(j: JsonView) {
        broadcast use group_record;

        reveal(GetPromptParams::written);
        reveal(GetPromptParams::read);
        let o = j->Object_0;
        String::lemma_decoded_valid(get(o, "name"@)->Some_0);
        if get(o, "arguments"@) is Some && get(o, "arguments"@) != Some(JsonView::Null) {
            StringMap::lemma_decoded_valid(get(o, "arguments"@)->Some_0);
        }
        lemma_without_members(o, Self::names());
    }
}

impl Layout for GetPromptParams {
    open spec fn layout(v: GetPromptParamsView) -> Members {
        Self::members(v)
    }

    open spec fn others(v: GetPromptParamsView) -> Fields {
        v.extra
    }

    proof fn lemma_layout(v: GetPromptParamsView) {
        reveal(GetPromptParams::written);
        Self::lemma_members(v);
    }
}

/// The answer to `prompts/get`.
#[derive(Debug, Clone)]
pub struct GetPromptResult {
    pub meta: Option<JsonObject>,
    pub description: Option<String>,
    pub messages: Vec<PromptMessage>,
    pub extra: JsonObject,
}

/// [`GetPromptResult`] as specifications see it.
pub struct GetPromptResultView {
    pub meta: Option<Fields>,
    pub description: Option<Seq<char>>,
    pub messages: Seq<PromptMessageView>,
    pub extra: Fields,
}

impl DeepView for GetPromptResult {
    type V = GetPromptResultView;

    open spec fn deep_view(&self) -> GetPromptResultView {
        GetPromptResultView {
            meta: self.meta.deep_view(),
            description: self.description.deep_view(),
            messages: self.messages.deep_view(),
            extra: self.extra.deep_view(),
        }
    }
}

impl Record for GetPromptResult {
    open spec fn names() -> Set<Seq<char>> {
        set!["_meta"@, "description"@, "messages"@]
    }

    fn declares(key: &str) -> (b: bool) {
        same_text(key, "_meta") || same_text(key, "description") || same_text(key, "messages")
    }
}

impl GetPromptResult {
    /// The declared fields of `v`, each with what is written for it.
    pub open spec fn members(v: GetPromptResultView) -> Members {
        Seq::empty()
            .push(opt_member::<JsonObject>("_meta"@, v.meta))
            .push(opt_member::<String>("description"@, v.description))
            .push(member::<Vec<PromptMessage>>("messages"@, v.messages))
    }

    /// The object that stands for `v`: its declared fields, then its other
    /// members.
    #[verifier::opaque]
    pub open spec fn written(v: GetPromptResultView) -> JsonView {
        JsonView::Object(present(Self::members(v)) + v.extra)
    }

    /// What `j` is read as: an object in which no declared name occurs twice
    /// and every declared field reads; the first field that does not read
    /// gives the error. The other members are kept.
    #[verifier::opaque]
    pub open spec fn read(j: JsonView) -> Result<GetPromptResultView, SchemaError> {
        match j {
            JsonView::Object(o) => {
                let meta = opt_field::<JsonObject>(o, "_meta"@);
                let description = opt_field::<String>(o, "description"@);
                let messages = field::<Vec<PromptMessage>>(o, "messages"@);
                if collides(o, Self::names()) {
                    Err(SchemaError::FieldCollision)
                } else if meta is Err {
                    Err(meta->Err_0)
                } else if description is Err {
                    Err(description->Err_0)
                } else if messages is Err {
                    Err(messages->Err_0)
                } else {
                    Ok(
                        GetPromptResultView {
                            meta: meta->Ok_0,
                            description: description->Ok_0,
                            messages: messages->Ok_0,
                            extra: without(o, Self::names()),
                        },
                    )
                }
            },
            _ => Err(SchemaError::ParamsShapeMismatch),
        }
    }

    /// The declared fields of a valid value have names of their own and
    /// well-formed values.
    pub proof fn lemma_members(v: GetPromptResultView)
        requires
            Self::valid(v),
        ensures
            members_ok(Self::members(v), Self::names()),
    {
        broadcast use group_record;

        reveal_strlit("_meta");
        reveal_strlit("description");
        reveal_strlit("messages");
        assert("_meta"@.len() == 5);
        assert("description"@.len() == 11);
        assert("messages"@.len() == 8);
        if v.meta is Some {
            JsonObject::lemma_round_trip(v.meta->Some_0);
        }
        if v.description is Some {
            String::lemma_round_trip(v.description->Some_0);
        }
        Vec::<PromptMessage>::lemma_round_trip(v.messages);
    }
}

impl Wire for GetPromptResult {
    open spec fn valid(v: GetPromptResultView) -> bool {
        &&& valid_opt::<JsonObject>(v.meta)
        &&& valid_opt::<String>(v.description)
        &&& Vec::<PromptMessage>::valid(v.messages)
        &&& fields_wf(v.extra)
        &&& avoids(v.extra, Self::names())
    }

    open spec fn encode(v: GetPromptResultView) -> JsonView {
        Self::written(v)
    }

    open spec fn decode(j: JsonView) -> Result<GetPromptResultView, SchemaError> {
        Self::read(j)
    }

    fn to_json(&self) -> (j: Json) {
        let mut out = no_members();
        write_opt_field::<JsonObject>(&mut out, "_meta", &self.meta);
        write_opt_field::<String>(&mut out, "description", &self.description);
        write_field::<Vec<PromptMessage>>(&mut out, "messages", &self.messages);
        write_rest(&mut out, &self.extra);
        proof {
            broadcast use group_writer;

            reveal(GetPromptResult::written);
            lemma_object_view(out);
        }
        Json::Object(out)
    }

    fn from_json(j: &Json) -> (r: Result<GetPromptResult, SchemaError>) {
        proof {
            reveal(GetPromptResult::read);
        }
        match j {
            Json::Object(entries) => {
                proof {
                    lemma_object_view(*entries);
                }
                if repeats::<GetPromptResult>(entries) {
                    return Err(SchemaError::FieldCollision);
                }
                let meta = read_opt_field::<JsonObject>(entries, "_meta")?;
                let description = read_opt_field::<String>(entries, "description")?;
                let messages = read_field::<Vec<PromptMessage>>(entries, "messages")?;
                Ok(
                    GetPromptResult {
                        meta,
                        description,
                        messages,
                        extra: rest::<GetPromptResult>(entries),
                    },
                )
            },
            _ => Err(SchemaError::ParamsShapeMismatch),
        }
    }

    proof fn lemma_round_trip(v: GetPromptResultView) {
        reveal(GetPromptResult::written);
        reveal(GetPromptResult::read);
        let m = Self::members(v);
        Self::lemma_members(v);
        lemma_written_record(m, v.extra, Self::names());
        lemma_member_at(m, Self::names(), 0);
        lemma_member_at(m, Self::names(), 1);
        lemma_member_at(m, Self::names(), 2);
        if v.meta is Some {
            JsonObject::lemma_round_trip(v.meta->Some_0);
        }
        if v.description is Some {
            String::lemma_round_trip(v.description->Some_0);
        }
        Vec::<PromptMessage>::lemma_round_trip(v.messages);
    }
}

impl WireSound for GetPromptResult {
    proof fn lemma_decoded_valid(j: JsonView) {
        broadcast use group_record;

        reveal(GetPromptResult::written);
        reveal(GetPromptResult::read);
        let o = j->Object_0;
        if get(o, "_meta"@) is Some && get(o, "_meta"@) != Some(JsonView::Null) {
            JsonObject::lemma_decoded_valid(get(o, "_meta"@)->Some_0);
        }
        if get(o, "description"@) is Some && get(o, "description"@) != Some(JsonView::Null) {
            String::lemma_decoded_valid(get(o, "description"@)->Some_0);
        }
        Vec::<PromptMessage>::lemma_decoded_valid(get(o, "messages"@)->Some_0);
        lemma_without_members(o, Self::names());
    }
}

impl Layout for GetPromptResult {
    open spec fn layout(v: GetPromptResultView) -> Members {
        Self::members(v)
    }

    open spec fn others(v: GetPromptResultView) -> Fields {
        v.extra
    }

    proof fn lemma_layout(v: GetPromptResultView) {
        reveal(GetPromptResult::written);
        Self::lemma_members(v);
    }
}

/// The answer to `prompts/list`.
#[derive(Debug, Clone)]
pub struct ListPromptsResult {
    pub meta: Option<JsonObject>,
    pub next_cursor: Option<String>,
    pub prompts: Vec<Prompt>,
    pub extra: JsonObject,
}

/// [`ListPromptsResult`] as specifications see it.
pub struct ListPromptsResultView {
    pub meta: Option<Fields>,
    pub next_cursor: Option<Seq<char>>,
    pub prompts: Seq<PromptView>,
    pub extra: Fields,
}

impl DeepView for ListPromptsResult {
    type V = ListPromptsResultView;

    open spec fn deep_view(&self) -> ListPromptsResultView {
        ListPromptsResultView {
            meta: self.meta.deep_view(),
            next_cursor: self.next_cursor.deep_view(),
            prompts: self.prompts.deep_view(),
            extra: self.extra.deep_view(),
        }
    }
}

impl Record for ListPromptsResult {
    open spec fn names() -> Set<Seq<char>> {
        set!["_meta"@, "nextCursor"@, "prompts"@]
    }

    fn declares(key: &str) -> (b: bool) {
        same_text(key, "_meta") || same_text(key, "nextCursor") || same_text(key, "prompts")
    }
}

impl ListPromptsResult {
    /// The declared fields of `v`, each with what is written for it.
    pub open spec fn members(v: ListPromptsResultView) -> Members {
        Seq::empty()
            .push(opt_member::<JsonObject>("_meta"@, v.meta))
            .push(opt_member::<String>("nextCursor"@, v.next_cursor))
            .push(member::<Vec<Prompt>>("prompts"@, v.prompts))
    }

    /// The object that stands for `v`: its declared fields, then its other
    /// members.
    #[verifier::opaque]
    pub open spec fn written(v: ListPromptsResultView) -> JsonView {
        JsonView::Object(present(Self::members(v)) + v.extra)
    }

    /// What `j` is read as: an object in which no declared name occurs twice
    /// and every declared field reads; the first field that does not read
    /// gives the error. The other members are kept.
    #[verifier::opaque]
    pub open spec fn read(j: JsonView) -> Result<ListPromptsResultView, SchemaError> {
        match j {
            JsonView::Object(o) => {
                let meta = opt_field::<JsonObject>(o, "_meta"@);
                let next_cursor = opt_field::<String>(o, "nextCursor"@);
                let prompts = field::<Vec<Prompt>>(o, "prompts"@);
                if collides(o, Self::names()) {
                    Err(SchemaError::FieldCollision)
                } else if meta is Err {
                    Err(meta->Err_0)
                } else if next_cursor is Err {
                    Err(next_cursor->Err_0)
                } else if prompts is Err {
                    Err(prompts->Err_0)
                } else {
                    Ok(
                        ListPromptsResultView {
                            meta: meta->Ok_0,
                            next_cursor: next_cursor->Ok_0,
                            prompts: prompts->Ok_0,
                            extra: without(o, Self::names()),
                        },
                    )
                }
            },
            _ => Err(SchemaError::ParamsShapeMismatch),
        }
    }

    /// The declared fields of a valid value have names of their own and
    /// well-formed values.
    pub proof fn lemma_members(v: ListPromptsResultView)
        requires
            Self::valid(v),
        ensures
            members_ok(Self::members(v), Self::names()),
    {
        broadcast use group_record;

        reveal_strlit("_meta");
        reveal_strlit("nextCursor");
        reveal_strlit("prompts");
        assert("_meta"@.len() == 5);
        assert("nextCursor"@.len() == 10);
        assert("prompts"@.len() == 7);
        if v.meta is Some {
            JsonObject::lemma_round_trip(v.meta->Some_0);
        }
        if v.next_cursor is Some {
            String::lemma_round_trip(v.next_cursor->Some_0);
        }
        Vec::<Prompt>::lemma_round_trip(v.prompts);
    }
}

impl Wire for ListPromptsResult {
    open spec fn valid(v: ListPromptsResultView) -> bool {
        &&& valid_opt::<JsonObject>(v.meta)
        &&& valid_opt::<String>(v.next_cursor)
        &&& Vec::<Prompt>::valid(v.prompts)
        &&& fields_wf(v.extra)
        &&& avoids(v.extra, Self::names())
    }

    open spec fn encode(v: ListPromptsResultView) -> JsonView {
        Self::written(v)
    }

    open spec fn decode(j: JsonView) -> Result<ListPromptsResultView, SchemaError> {
        Self::read(j)
    }

    fn to_json(&self) -> (j: Json) {
        let mut out = no_members();
        write_opt_field::<JsonObject>(&mut out, "_meta", &self.meta);
        write_opt_field::<String>(&mut out, "nextCursor", &self.next_cursor);
        write_field::<Vec<Prompt>>(&mut out, "prompts", &self.prompts);
        write_rest(&mut out, &self.extra);
        proof {
            broadcast use group_writer;

            reveal(ListPromptsResult::written);
            lemma_object_view(out);
        }
        Json::Object(out)
    }

    fn from_json(j: &Json) -> (r: Result<ListPromptsResult, SchemaError>) {
        proof {
            reveal(ListPromptsResult::read);
        }
        match j {
            Json::Object(entries) => {
                proof {
                    lemma_object_view(*entries);
                }
                if repeats::<ListPromptsResult>(entries) {
                    return Err(SchemaError::FieldCollision);
                }
                let meta = read_opt_field::<JsonObject>(entries, "_meta")?;
                let next_cursor = read_opt_field::<String>(entries, "nextCursor")?;
                let prompts = read_field::<Vec<Prompt>>(entries, "prompts")?;
                Ok(
                    ListPromptsResult {
                        meta,
                        next_cursor,
                        prompts,
                        extra: rest::<ListPromptsResult>(entries),
                    },
                )
            },
            _ => Err(SchemaError::ParamsShapeMismatch),
        }
    }

    proof fn lemma_round_trip(v: ListPromptsResultView) {
        reveal(ListPromptsResult::written);
        reveal(ListPromptsResult::read);
        let m = Self::members(v);
        Self::lemma_members(v);
        lemma_written_record(m, v.extra, Self::names());
        lemma_member_at(m, Self::names(), 0);
        lemma_member_at(m, Self::names(), 1);
        lemma_member_at(m, Self::names(), 2);
        if v.meta is Some {
            JsonObject::lemma_round_trip(v.meta->Some_0);
        }
        if v.next_cursor is Some {
            String::lemma_round_trip(v.next_cursor->Some_0);
        }
        Vec::<Prompt>::lemma_round_trip(v.prompts);
    }
}

impl WireSound for ListPromptsResult {
    proof fn lemma_decoded_valid(j: JsonView) {
        broadcast use group_record;

        reveal(ListPromptsResult::written);
        reveal(ListPromptsResult::read);
        let o = j->Object_0;
        if get(o, "_meta"@) is Some && get(o, "_meta"@) != Some(JsonView::Null) {
            JsonObject::lemma_decoded_valid(get(o, "_meta"@)->Some_0);
        }
        if get(o, "nextCursor"@) is Some && get(o, "nextCursor"@) != Some(JsonView::Null) {
            String::lemma_decoded_valid(get(o, "nextCursor"@)->Some_0);
        }
        Vec::<Prompt>::lemma_decoded_valid(get(o, "prompts"@)->Some_0);
        lemma_without_members(o, Self::names());
    }
}

impl Layout for ListPromptsResult {
    open spec fn layout(v: ListPromptsResultView) -> Members {
        Self::members(v)
    }

    open spec fn others(v: ListPromptsResultView) -> Fields {
        v.extra
    }

    proof fn lemma_layout(v: ListPromptsResultView) {
        reveal(ListPromptsResult::written);
        Self::lemma_members(v);
    }
}

/// What a prompt message or a tool result holds: text, an image, or an embedded
/// resource. The member `type` says which.
#[derive(Debug, Clone)]
pub enum PromptContent {
    Text(TextContent),
    Image(ImageContent),
    Resource(EmbeddedResource),
}

/// [`PromptContent`] as specifications see it.
pub enum PromptContentView {
    Text(TextContentView),
    Image(ImageContentView),
    Resource(EmbeddedResourceView),
}

impl DeepView for PromptContent {
    type V = PromptContentView;

    open spec fn deep_view(&self) -> PromptContentView {
        match self {
            PromptContent::Text(x) => PromptContentView::Text(x.deep_view()),
            PromptContent::Image(x) => PromptContentView::Image(x.deep_view()),
            PromptContent::Resource(x) => PromptContentView::Resource(x.deep_view()),
        }
    }
}

impl Wire for PromptContent {
    /// The variant holds a valid value whose `type` names the variant.
    open spec fn valid(v: PromptContentView) -> bool {
        match v {
            PromptContentView::Text(x) => TextContent::valid(x) && x.kind == "text"@,
            PromptContentView::Image(x) => ImageContent::valid(x) && x.kind == "image"@,
            PromptContentView::Resource(x) => EmbeddedResource::valid(x) && x.kind == "resource"@,
        }
    }

    open spec fn encode(v: PromptContentView) -> JsonView {
        match v {
            PromptContentView::Text(x) => TextContent::encode(x),
            PromptContentView::Image(x) => ImageContent::encode(x),
            PromptContentView::Resource(x) => EmbeddedResource::encode(x),
        }
    }

    /// The variant that the member `type` names, read as that variant;
    /// without such a member, or with a name that is not known, the
    /// variant is unknown.
    open spec fn decode(j: JsonView) -> Result<PromptContentView, SchemaError> {
        match j {
            JsonView::Object(o) => match get(o, "type"@) {
                Some(JsonView::String(t)) => {
                    if t == "text"@ {
                        match TextContent::decode(j) {
                            Ok(x) => Ok(PromptContentView::Text(x)),
                            Err(e) => Err(e),
                        }
                    } else if t == "image"@ {
                        match ImageContent::decode(j) {
                            Ok(x) => Ok(PromptContentView::Image(x)),
                            Err(e) => Err(e),
                        }
                    } else if t == "resource"@ {
                        match EmbeddedResource::decode(j) {
                            Ok(x) => Ok(PromptContentView::Resource(x)),
                            Err(e) => Err(e),
                        }
                    } else {
                        Err(SchemaError::UnknownContentVariant)
                    }
                },
                _ => Err(SchemaError::UnknownContentVariant),
            },
            _ => Err(SchemaError::UnknownContentVariant),
        }
    }

    fn to_json(&self) -> (j: Json) {
        match self {
            PromptContent::Text(x) => x.to_json(),
            PromptContent::Image(x) => x.to_json(),
            PromptContent::Resource(x) => x.to_json(),
        }
    }

    fn from_json(j: &Json) -> (r: Result<PromptContent, SchemaError>) {
        match j {
            Json::Object(entries) => {
                proof {
                    lemma_object_view(*entries);
                }
                match find(entries, "type") {
                    Some(Json::String(t)) => {
                        if same_text(t.as_str(), "text") {
                            match TextContent::from_json(j) {
                                Ok(x) => Ok(PromptContent::Text(x)),
                                Err(e) => Err(e),
                            }
                        } else if same_text(t.as_str(), "image") {
                            match ImageContent::from_json(j) {
                                Ok(x) => Ok(PromptContent::Image(x)),
                                Err(e) => Err(e),
                            }
                        } else if same_text(t.as_str(), "resource") {
                            match EmbeddedResource::from_json(j) {
                                Ok(x) => Ok(PromptContent::Resource(x)),
                                Err(e) => Err(e),
                            }
                        } else {
                            Err(SchemaError::UnknownContentVariant)
                        }
                    },
                    _ => Err(SchemaError::UnknownContentVariant),
                }
            },
            _ => Err(SchemaError::UnknownContentVariant),
        }
    }

    proof fn lemma_round_trip(v: PromptContentView) {
        broadcast use group_record;

        match v {
            PromptContentView::Text(x) => {
                reveal_strlit("type");
                reveal_strlit("text");
                reveal_strlit("annotations");
                assert("type"@.len() == 4);
                assert("text"@.len() == 4);
                assert("annotations"@.len() == 11);
                assert("text"@[1] == 'e');
                assert("type"@[1] == 'y');
                reveal_strlit("image");
                reveal_strlit("resource");
                assert("text"@.len() == 4);
                assert("image"@.len() == 5);
                assert("resource"@.len() == 8);
                TextContent::lemma_layout(x);
                lemma_written_record(
                    TextContent::layout(x),
                    TextContent::others(x),
                    TextContent::names(),
                );
                lemma_member_at(TextContent::layout(x), TextContent::names(), 0);
                TextContent::lemma_round_trip(x);
            },
            PromptContentView::Image(x) => {
                reveal_strlit("type");
                reveal_strlit("data");
                reveal_strlit("mimeType");
                reveal_strlit("annotations");
                assert("type"@.len() == 4);
                assert("data"@.len() == 4);
                assert("mimeType"@.len() == 8);
                assert("annotations"@.len() == 11);
                assert("data"@[0] == 'd');
                assert("type"@[0] == 't');
                reveal_strlit("text");
                reveal_strlit("image");
                reveal_strlit("resource");
                assert("text"@.len() == 4);
                assert("image"@.len() == 5);
                assert("resource"@.len() == 8);
                ImageContent::lemma_layout(x);
                lemma_written_record(
                    ImageContent::layout(x),
                    ImageContent::others(x),
                    ImageContent::names(),
                );
                lemma_member_at(ImageContent::layout(x), ImageContent::names(), 0);
                ImageContent::lemma_round_trip(x);
            },
            PromptContentView::Resource(x) => {
                reveal_strlit("type");
                reveal_strlit("resource");
                reveal_strlit("annotations");
                assert("type"@.len() == 4);
                assert("resource"@.len() == 8);
                assert("annotations"@.len() == 11);
                reveal_strlit("text");
                reveal_strlit("image");
                assert("text"@.len() == 4);
                assert("image"@.len() == 5);
                assert("resource"@.len() == 8);
                EmbeddedResource::lemma_layout(x);
                lemma_written_record(
                    EmbeddedResource::layout(x),
                    EmbeddedResource::others(x),
                    EmbeddedResource::names(),
                );
                lemma_member_at(EmbeddedResource::layout(x), EmbeddedResource::names(), 0);
                EmbeddedResource::lemma_round_trip(x);
            },
        }
    }
}

impl WireSound for PromptContent {
    proof fn lemma_decoded_valid(j: JsonView) {
        broadcast use group_record;

        match Self::decode(j)->Ok_0 {
            PromptContentView::Text(x) => {
                reveal(TextContent::read);
                reveal(TextContent::written);
                TextContent::lemma_decoded_valid(j);
            },
            PromptContentView::Image(x) => {
                reveal(ImageContent::read);
                reveal(ImageContent::written);
                ImageContent::lemma_decoded_valid(j);
            },
            PromptContentView::Resource(x) => {
                reveal(EmbeddedResource::read);
                reveal(EmbeddedResource::written);
                EmbeddedResource::lemma_decoded_valid(j);
            },
        }
    }
}

} // verus!
