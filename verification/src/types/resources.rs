//! Resources: what the server can read for the client.

use vstd::prelude::*;
use crate::error::SchemaError;
use crate::json::{
    avoids, collides, fields_wf, find, get, lemma_object_view, lemma_without_members, same_text,
    without, Fields, Json, JsonView,
};
use crate::record::{
    field, group_record, group_writer, lemma_member_at, lemma_written_record, member, members_ok,
    no_members, opt_field, opt_member, present, read_field, read_opt_field, repeats, rest,
    valid_opt, with, write_field, write_opt_field, write_rest, JsonObject, Layout, Members,
    Record,
};
use crate::types::common::{Annotated, AnnotatedView, Annotations};
use crate::wire::{Wire, WireSound};

verus! {

/// A resource that the server can read.
#[derive(Debug, Clone)]
pub struct Resource {
    pub uri: String,
    pub name: String,
    pub description: Option<String>,
    pub mime_type: Option<String>,
    pub annotated: Annotated,
}

/// [`Resource`] as specifications see it.
pub struct ResourceView {
    pub uri: Seq<char>,
    pub name: Seq<char>,
    pub description: Option<Seq<char>>,
    pub mime_type: Option<Seq<char>>,
    pub annotated: AnnotatedView,
}

impl DeepView for Resource {
    type V = ResourceView;

    open spec fn deep_view(&self) -> ResourceView {
        ResourceView {
            uri: self.uri.deep_view(),
            name: self.name.deep_view(),
            description: self.description.deep_view(),
            mime_type: self.mime_type.deep_view(),
            annotated: self.annotated.deep_view(),
        }
    }
}

impl Record for Resource {
    open spec fn names() -> Set<Seq<char>> {
        set!["uri"@, "name"@, "description"@, "mimeType"@, "annotations"@]
    }

    fn declares(key: &str) -> (b: bool) {
        same_text(key, "uri")
            || same_text(key, "name")
            || same_text(key, "description")
            || same_text(key, "mimeType")
            || same_text(key, "annotations")
    }
}

impl Resource {
    /// The declared fields of `v`, each with what is written for it.
    pub open spec fn members(v: ResourceView) -> Members {
        Seq::empty()
            .push(member::<String>("uri"@, v.uri))
            .push(member::<String>("name"@, v.name))
            .push(opt_member::<String>("description"@, v.description))
            .push(opt_member::<String>("mimeType"@, v.mime_type))
            .push(opt_member::<Annotations>("annotations"@, v.annotated.annotations))
    }

    /// The object that stands for `v`: its declared fields, then its other
    /// members.
    #[verifier::opaque]
    pub open spec fn written(v: ResourceView) -> JsonView {
        JsonView::Object(present(Self::members(v)) + v.annotated.extra)
    }

    /// What `j` is read as: an object in which no declared name occurs twice
    /// and every declared field reads; the first field that does not read
    /// gives the error. The other members are kept.
    #[verifier::opaque]
    pub open spec fn read(j: JsonView) -> Result<ResourceView, SchemaError> {
        match j {
            JsonView::Object(o) => {
                let uri = field::<String>(o, "uri"@);
                let name = field::<String>(o, "name"@);
                let description = opt_field::<String>(o, "description"@);
                let mime_type = opt_field::<String>(o, "mimeType"@);
                let annotations = opt_field::<Annotations>(o, "annotations"@);
                if collides(o, Self::names()) {
                    Err(SchemaError::FieldCollision)
                } else if uri is Err {
                    Err(uri->Err_0)
                } else if name is Err {
                    Err(name->Err_0)
                } else if description is Err {
                    Err(description->Err_0)
                } else if mime_type is Err {
                    Err(mime_type->Err_0)
                } else if annotations is Err {
                    Err(annotations->Err_0)
                } else {
                    Ok(
                        ResourceView {
                            uri: uri->Ok_0,
                            name: name->Ok_0,
                            description: description->Ok_0,
                            mime_type: mime_type->Ok_0,
                            annotated: AnnotatedView {
                                annotations: annotations->Ok_0,
                                extra: without(o, Self::names()),
                            },
                        },
                    )
                }
            },
            _ => Err(SchemaError::ParamsShapeMismatch),
        }
    }

    /// The declared fields of a valid value have names of their own and
    /// well-formed values.
    pub proof fn lemma_members(v: ResourceView)
        requires
            Self::valid(v),
        ensures
            members_ok(Self::members(v), Self::names()),
    {
        broadcast use group_record;

        reveal_strlit("uri");
        reveal_strlit("name");
        reveal_strlit("description");
        reveal_strlit("mimeType");
        reveal_strlit("annotations");
        assert("uri"@.len() == 3);
        assert("name"@.len() == 4);
        assert("description"@.len() == 11);
        assert("mimeType"@.len() == 8);
        assert("annotations"@.len() == 11);
        assert("annotations"@[0] == 'a');
        assert("description"@[0] == 'd');
        String::lemma_round_trip(v.uri);
        String::lemma_round_trip(v.name);
        if v.description is Some {
            String::lemma_round_trip(v.description->Some_0);
        }
        if v.mime_type is Some {
            String::lemma_round_trip(v.mime_type->Some_0);
        }
        if v.annotated.annotations is Some {
            Annotations::lemma_round_trip(v.annotated.annotations->Some_0);
        }
    }
}

impl Wire for Resource {
    open spec fn valid(v: ResourceView) -> bool {
        &&& String::valid(v.uri)
        &&& String::valid(v.name)
        &&& valid_opt::<String>(v.description)
        &&& valid_opt::<String>(v.mime_type)
        &&& valid_opt::<Annotations>(v.annotated.annotations)
        &&& fields_wf(v.annotated.extra)
        &&& avoids(v.annotated.extra, Self::names())
    }

    open spec fn encode(v: ResourceView) -> JsonView {
        Self::written(v)
    }

    open spec fn decode(j: JsonView) -> Result<ResourceView, SchemaError> {
        Self::read(j)
    }

    fn to_json(&self) -> (j: Json) {
        let mut out = no_members();
        write_field::<String>(&mut out, "uri", &self.uri);
        write_field::<String>(&mut out, "name", &self.name);
        write_opt_field::<String>(&mut out, "description", &self.description);
        write_opt_field::<String>(&mut out, "mimeType", &self.mime_type);
        write_opt_field::<Annotations>(&mut out, "annotations", &self.annotated.annotations);
        write_rest(&mut out, &self.annotated.extra);
        proof {
            broadcast use group_writer;

            reveal(Resource::written);
            lemma_object_view(out);
        }
        Json::Object(out)
    }

    fn from_json(j: &Json) -> (r: Result<Resource, SchemaError>) {
        proof {
            reveal(Resource::read);
        }
        match j {
            Json::Object(entries) => {
                proof {
                    lemma_object_view(*entries);
                }
                if repeats::<Resource>(entries) {
                    return Err(SchemaError::FieldCollision);
                }
                let uri = read_field::<String>(entries, "uri")?;
                let name = read_field::<String>(entries, "name")?;
                let description = read_opt_field::<String>(entries, "description")?;
                let mime_type = read_opt_field::<String>(entries, "mimeType")?;
                let annotations = read_opt_field::<Annotations>(entries, "annotations")?;
                Ok(
                    Resource {
                        uri,
                        name,
                        description,
                        mime_type,
                        annotated: Annotated { annotations, extra: rest::<Resource>(entries) },
                    },
                )
            },
            _ => Err(SchemaError::ParamsShapeMismatch),
        }
    }

    proof fn lemma_round_trip(v: ResourceView) {
        reveal(Resource::written);
        reveal(Resource::read);
        let m = Self::members(v);
        Self::lemma_members(v);
        lemma_written_record(m, v.annotated.extra, Self::names());
        lemma_member_at(m, Self::names(), 0);
        lemma_member_at(m, Self::names(), 1);
        lemma_member_at(m, Self::names(), 2);
        lemma_member_at(m, Self::names(), 3);
        lemma_member_at(m, Self::names(), 4);
        String::lemma_round_trip(v.uri);
        String::lemma_round_trip(v.name);
        if v.description is Some {
            String::lemma_round_trip(v.description->Some_0);
        }
        if v.mime_type is Some {
            String::lemma_round_trip(v.mime_type->Some_0);
        }
        if v.annotated.annotations is Some {
            Annotations::lemma_round_trip(v.annotated.annotations->Some_0);
        }
    }
}

impl WireSound for Resource {
    proof fn lemma_decoded_valid(j: JsonView) {
        broadcast use group_record;

        reveal(Resource::written);
        reveal(Resource::read);
        let o = j->Object_0;
        String::lemma_decoded_valid(get(o, "uri"@)->Some_0);
        String::lemma_decoded_valid(get(o, "name"@)->Some_0);
        if get(o, "description"@) is Some && get(o, "description"@) != Some(JsonView::Null) {
            String::lemma_decoded_valid(get(o, "description"@)->Some_0);
        }
        if get(o, "mimeType"@) is Some && get(o, "mimeType"@) != Some(JsonView::Null) {
            String::lemma_decoded_valid(get(o, "mimeType"@)->Some_0);
        }
        if get(o, "annotations"@) is Some && get(o, "annotations"@) != Some(JsonView::Null) {
            Annotations::lemma_decoded_valid(get(o, "annotations"@)->Some_0);
        }
        lemma_without_members(o, Self::names());
    }
}

impl Layout for Resource {
    open spec fn layout(v: ResourceView) -> Members {
        Self::members(v)
    }

    open spec fn others(v: ResourceView) -> Fields {
        v.annotated.extra
    }

    proof fn lemma_layout(v: ResourceView) {
        reveal(Resource::written);
        Self::lemma_members(v);
    }
}

/// A template from which resource URIs are made.
#[derive(Debug, Clone)]
pub struct ResourceTemplate {
    pub uri_template: String,
    pub name: String,
    pub description: Option<String>,
    pub mime_type: Option<String>,
    pub annotated: Annotated,
}

/// [`ResourceTemplate`] as specifications see it.
pub struct ResourceTemplateView {
    pub uri_template: Seq<char>,
    pub name: Seq<char>,
    pub description: Option<Seq<char>>,
    pub mime_type: Option<Seq<char>>,
    pub annotated: AnnotatedView,
}

impl DeepView for ResourceTemplate {
    type V = ResourceTemplateView;

    open spec fn deep_view(&self) -> ResourceTemplateView {
        ResourceTemplateView {
            uri_template: self.uri_template.deep_view(),
            name: self.name.deep_view(),
            description: self.description.deep_view(),
            mime_type: self.mime_type.deep_view(),
            annotated: self.annotated.deep_view(),
        }
    }
}

impl Record for ResourceTemplate {
    open spec fn names() -> Set<Seq<char>> {
        set!["uriTemplate"@, "name"@, "description"@, "mimeType"@, "annotations"@]
    }

    fn declares(key: &str) -> (b: bool) {
        same_text(key, "uriTemplate")
            || same_text(key, "name")
            || same_text(key, "description")
            || same_text(key, "mimeType")
            || same_text(key, "annotations")
    }
}

impl ResourceTemplate {
    /// The declared fields of `v`, each with what is written for it.
    pub open spec fn members(v: ResourceTemplateView) -> Members {
        Seq::empty()
            .push(member::<String>("uriTemplate"@, v.uri_template))
            .push(member::<String>("name"@, v.name))
            .push(opt_member::<String>("description"@, v.description))
            .push(opt_member::<String>("mimeType"@, v.mime_type))
            .push(opt_member::<Annotations>("annotations"@, v.annotated.annotations))
    }

    /// The object that stands for `v`: its declared fields, then its other
    /// members.
    #[verifier::opaque]
    pub open spec fn written(v: ResourceTemplateView) -> JsonView {
        JsonView::Object(present(Self::members(v)) + v.annotated.extra)
    }

    /// What `j` is read as: an object in which no declared name occurs twice
    /// and every declared field reads; the first field that does not read
    /// gives the error. The other members are kept.
    #[verifier::opaque]
    pub open spec fn read(j: JsonView) -> Result<ResourceTemplateView, SchemaError> {
        match j {
            JsonView::Object(o) => {
                let uri_template = field::<String>(o, "uriTemplate"@);
                let name = field::<String>(o, "name"@);
                let description = opt_field::<String>(o, "description"@);
                let mime_type = opt_field::<String>(o, "mimeType"@);
                let annotations = opt_field::<Annotations>(o, "annotations"@);
                if collides(o, Self::names()) {
                    Err(SchemaError::FieldCollision)
                } else if uri_template is Err {
                    Err(uri_template->Err_0)
                } else if name is Err {
                    Err(name->Err_0)
                } else if description is Err {
                    Err(description->Err_0)
                } else if mime_type is Err {
                    Err(mime_type->Err_0)
                } else if annotations is Err {
                    Err(annotations->Err_0)
                } else {
                    Ok(
                        ResourceTemplateView {
                            uri_template: uri_template->Ok_0,
                            name: name->Ok_0,
                            description: description->Ok_0,
                            mime_type: mime_type->Ok_0,
                            annotated: AnnotatedView {
                                annotations: annotations->Ok_0,
                                extra: without(o, Self::names()),
                            },
                        },
                    )
                }
            },
            _ => Err(SchemaError::ParamsShapeMismatch),
        }
    }

    /// The declared fields of a valid value have names of their own and
    /// well-formed values.
    pub proof fn lemma_members(v: ResourceTemplateView)
        requires
            Self::valid(v),
        ensures
            members_ok(Self::members(v), Self::names()),
    {
        broadcast use group_record;

        reveal_strlit("uriTemplate");
        reveal_strlit("name");
        reveal_strlit("description");
        reveal_strlit("mimeType");
        reveal_strlit("annotations");
        assert("uriTemplate"@.len() == 11);
        assert("name"@.len() == 4);
        assert("description"@.len() == 11);
        assert("mimeType"@.len() == 8);
        assert("annotations"@.len() == 11);
        assert("description"@[0] == 'd');
        assert("uriTemplate"@[0] == 'u');
        assert("annotations"@[0] == 'a');
        String::lemma_round_trip(v.uri_template);
        String::lemma_round_trip(v.name);
        if v.description is Some {
            String::lemma_round_trip(v.description->Some_0);
        }
        if v.mime_type is Some {
            String::lemma_round_trip(v.mime_type->Some_0);
        }
        if v.annotated.annotations is Some {
            Annotations::lemma_round_trip(v.annotated.annotations->Some_0);
        }
    }
}

impl Wire for ResourceTemplate {
    open spec fn valid(v: ResourceTemplateView) -> bool {
        &&& String::valid(v.uri_template)
        &&& String::valid(v.name)
        &&& valid_opt::<String>(v.description)
        &&& valid_opt::<String>(v.mime_type)
        &&& valid_opt::<Annotations>(v.annotated.annotations)
        &&& fields_wf(v.annotated.extra)
        &&& avoids(v.annotated.extra, Self::names())
    }

    open spec fn encode(v: ResourceTemplateView) -> JsonView {
        Self::written(v)
    }

    open spec fn decode(j: JsonView) -> Result<ResourceTemplateView, SchemaError> {
        Self::read(j)
    }

    fn to_json(&self) -> (j: Json) {
        let mut out = no_members();
        write_field::<String>(&mut out, "uriTemplate", &self.uri_template);
        write_field::<String>(&mut out, "name", &self.name);
        write_opt_field::<String>(&mut out, "description", &self.description);
        write_opt_field::<String>(&mut out, "mimeType", &self.mime_type);
        write_opt_field::<Annotations>(&mut out, "annotations", &self.annotated.annotations);
        write_rest(&mut out, &self.annotated.extra);
        proof {
            broadcast use group_writer;

            reveal(ResourceTemplate::written);
            lemma_object_view(out);
        }
        Json::Object(out)
    }

    fn from_json(j: &Json) -> (r: Result<ResourceTemplate, SchemaError>) {
        proof {
            reveal(ResourceTemplate::read);
        }
        match j {
            Json::Object(entries) => {
                proof {
                    lemma_object_view(*entries);
                }
                if repeats::<ResourceTemplate>(entries) {
                    return Err(SchemaError::FieldCollision);
                }
                let uri_template = read_field::<String>(entries, "uriTemplate")?;
                let name = read_field::<String>(entries, "name")?;
                let description = read_opt_field::<String>(entries, "description")?;
                let mime_type = read_opt_field::<String>(entries, "mimeType")?;
                let annotations = read_opt_field::<Annotations>(entries, "annotations")?;
                Ok(
                    ResourceTemplate {
                        uri_template,
                        name,
                        description,
                        mime_type,
                        annotated: Annotated {
                            annotations,
                            extra: rest::<ResourceTemplate>(entries),
                        },
                    },
                )
            },
            _ => Err(SchemaError::ParamsShapeMismatch),
        }
    }

    proof fn lemma_round_trip(v: ResourceTemplateView) {
        reveal(ResourceTemplate::written);
        reveal(ResourceTemplate::read);
        let m = Self::members(v);
        Self::lemma_members(v);
        lemma_written_record(m, v.annotated.extra, Self::names());
        lemma_member_at(m, Self::names(), 0);
        lemma_member_at(m, Self::names(), 1);
        lemma_member_at(m, Self::names(), 2);
        lemma_member_at(m, Self::names(), 3);
        lemma_member_at(m, Self::names(), 4);
        String::lemma_round_trip(v.uri_template);
        String::lemma_round_trip(v.name);
        if v.description is Some {
            String::lemma_round_trip(v.description->Some_0);
        }
        if v.mime_type is Some {
            String::lemma_round_trip(v.mime_type->Some_0);
        }
        if v.annotated.annotations is Some {
            Annotations::lemma_round_trip(v.annotated.annotations->Some_0);
        }
    }
}

impl WireSound for ResourceTemplate {
    proof fn lemma_decoded_valid(j: JsonView) {
        broadcast use group_record;

        reveal(ResourceTemplate::written);
        reveal(ResourceTemplate::read);
        let o = j->Object_0;
        String::lemma_decoded_valid(get(o, "uriTemplate"@)->Some_0);
        String::lemma_decoded_valid(get(o, "name"@)->Some_0);
        if get(o, "description"@) is Some && get(o, "description"@) != Some(JsonView::Null) {
            String::lemma_decoded_valid(get(o, "description"@)->Some_0);
        }
        if get(o, "mimeType"@) is Some && get(o, "mimeType"@) != Some(JsonView::Null) {
            String::lemma_decoded_valid(get(o, "mimeType"@)->Some_0);
        }
        if get(o, "annotations"@) is Some && get(o, "annotations"@) != Some(JsonView::Null) {
            Annotations::lemma_decoded_valid(get(o, "annotations"@)->Some_0);
        }
        lemma_without_members(o, Self::names());
    }
}

impl Layout for ResourceTemplate {
    open spec fn layout(v: ResourceTemplateView) -> Members {
        Self::members(v)
    }

    open spec fn others(v: ResourceTemplateView) -> Fields {
        v.annotated.extra
    }

    proof fn lemma_layout(v: ResourceTemplateView) {
        reveal(ResourceTemplate::written);
        Self::lemma_members(v);
    }
}

/// The contents of a resource, as text.
#[derive(Debug, Clone)]
pub struct TextResourceContents {
    pub uri: String,
    pub mime_type: Option<String>,
    pub text: String,
}

/// [`TextResourceContents`] as specifications see it.
pub struct TextResourceContentsView {
    pub uri: Seq<char>,
    pub mime_type: Option<Seq<char>>,
    pub text: Seq<char>,
}

impl DeepView for TextResourceContents {
    type V = TextResourceContentsView;

    open spec fn deep_view(&self) -> TextResourceContentsView {
        TextResourceContentsView {
            uri: self.uri.deep_view(),
            mime_type: self.mime_type.deep_view(),
            text: self.text.deep_view(),
        }
    }
}

impl Record for TextResourceContents {
    open spec fn names() -> Set<Seq<char>> {
        set!["uri"@, "mimeType"@, "text"@]
    }

    fn declares(key: &str) -> (b: bool) {
        same_text(key, "uri") || same_text(key, "mimeType") || same_text(key, "text")
    }
}

impl TextResourceContents {
    /// The declared fields of `v`, each with what is written for it.
    pub open spec fn members(v: TextResourceContentsView) -> Members {
        Seq::empty()
            .push(member::<String>("uri"@, v.uri))
            .push(opt_member::<String>("mimeType"@, v.mime_type))
            .push(member::<String>("text"@, v.text))
    }

    /// The object that stands for `v`: its declared fields.
    #[verifier::opaque]
    pub open spec fn written(v: TextResourceContentsView) -> JsonView {
        JsonView::Object(present(Self::members(v)))
    }

    /// What `j` is read as: an object in which no declared name occurs twice
    /// and every declared field reads; the first field that does not read
    /// gives the error. Other members are passed over.
    #[verifier::opaque]
    pub open spec fn read(j: JsonView) -> Result<TextResourceContentsView, SchemaError> {
        match j {
            JsonView::Object(o) => {
                let uri = field::<String>(o, "uri"@);
                let mime_type = opt_field::<String>(o, "mimeType"@);
                let text = field::<String>(o, "text"@);
                if collides(o, Self::names()) {
                    Err(SchemaError::FieldCollision)
                } else if uri is Err {
                    Err(uri->Err_0)
                } else if mime_type is Err {
                    Err(mime_type->Err_0)
                } else if text is Err {
                    Err(text->Err_0)
                } else {
                    Ok(
                        TextResourceContentsView {
                            uri: uri->Ok_0,
                            mime_type: mime_type->Ok_0,
                            text: text->Ok_0,
                        },
                    )
                }
            },
            _ => Err(SchemaError::ParamsShapeMismatch),
        }
    }

    /// The declared fields of a valid value have names of their own and
    /// well-formed values.
    pub proof fn lemma_members(v: TextResourceContentsView)
        requires
            Self::valid(v),
        ensures
            members_ok(Self::members(v), Self::names()),
    {
        broadcast use group_record;

        reveal_strlit("uri");
        reveal_strlit("mimeType");
        reveal_strlit("text");
        assert("uri"@.len() == 3);
        assert("mimeType"@.len() == 8);
        assert("text"@.len() == 4);
        String::lemma_round_trip(v.uri);
        if v.mime_type is Some {
            String::lemma_round_trip(v.mime_type->Some_0);
        }
        String::lemma_round_trip(v.text);
    }
}

impl Wire for TextResourceContents {
    open spec fn valid(v: TextResourceContentsView) -> bool {
        &&& String::valid(v.uri)
        &&& valid_opt::<String>(v.mime_type)
        &&& String::valid(v.text)
    }

    open spec fn encode(v: TextResourceContentsView) -> JsonView {
        Self::written(v)
    }

    open spec fn decode(j: JsonView) -> Result<TextResourceContentsView, SchemaError> {
        Self::read(j)
    }

    fn to_json(&self) -> (j: Json) {
        let mut out = no_members();
        write_field::<String>(&mut out, "uri", &self.uri);
        write_opt_field::<String>(&mut out, "mimeType", &self.mime_type);
        write_field::<String>(&mut out, "text", &self.text);
        proof {
            broadcast use group_writer;

            reveal(TextResourceContents::written);
            lemma_object_view(out);
        }
        Json::Object(out)
    }

    fn from_json(j: &Json) -> (r: Result<TextResourceContents, SchemaError>) {
        proof {
            reveal(TextResourceContents::read);
        }
        match j {
            Json::Object(entries) => {
                proof {
                    lemma_object_view(*entries);
                }
                if repeats::<TextResourceContents>(entries) {
                    return Err(SchemaError::FieldCollision);
                }
                let uri = read_field::<String>(entries, "uri")?;
                let mime_type = read_opt_field::<String>(entries, "mimeType")?;
                let text = read_field::<String>(entries, "text")?;
                Ok(TextResourceContents { uri, mime_type, text })
            },
            _ => Err(SchemaError::ParamsShapeMismatch),
        }
    }

    proof fn lemma_round_trip(v: TextResourceContentsView) {
        reveal(TextResourceContents::written);
        reveal(TextResourceContents::read);
        let m = Self::members(v);
        Self::lemma_members(v);
        lemma_written_record(m, Seq::empty(), Self::names());
        lemma_member_at(m, Self::names(), 0);
        lemma_member_at(m, Self::names(), 1);
        lemma_member_at(m, Self::names(), 2);
        String::lemma_round_trip(v.uri);
        if v.mime_type is Some {
            String::lemma_round_trip(v.mime_type->Some_0);
        }
        String::lemma_round_trip(v.text);
        assert(present(m) + Seq::empty() =~= present(m));
    }
}

impl WireSound for TextResourceContents {
    proof fn lemma_decoded_valid(j: JsonView) {
        broadcast use group_record;

        reveal(TextResourceContents::written);
        reveal(TextResourceContents::read);
        let o = j->Object_0;
        String::lemma_decoded_valid(get(o, "uri"@)->Some_0);
        if get(o, "mimeType"@) is Some && get(o, "mimeType"@) != Some(JsonView::Null) {
            String::lemma_decoded_valid(get(o, "mimeType"@)->Some_0);
        }
        String::lemma_decoded_valid(get(o, "text"@)->Some_0);
    }
}

impl Layout for TextResourceContents {
    open spec fn layout(v: TextResourceContentsView) -> Members {
        Self::members(v)
    }

    open spec fn others(v: TextResourceContentsView) -> Fields {
        Seq::empty()
    }

    proof fn lemma_layout(v: TextResourceContentsView) {
        reveal(TextResourceContents::written);
        Self::lemma_members(v);
        assert(Self::layout(v) == Self::members(v));
        assert(Self::others(v) == Seq::<(Seq<char>, JsonView)>::empty());
        assert(fields_wf(Seq::<(Seq<char>, JsonView)>::empty()));
        assert(present(Self::members(v)) + Seq::empty() =~= present(Self::members(v)));
    }
}

/// The contents of a resource, as base64 text.
#[derive(Debug, Clone)]
pub struct BlobResourceContents {
    pub uri: String,
    pub mime_type: Option<String>,
    pub blob: String,
}

/// [`BlobResourceContents`] as specifications see it.
pub struct BlobResourceContentsView {
    pub uri: Seq<char>,
    pub mime_type: Option<Seq<char>>,
    pub blob: Seq<char>,
}

impl DeepView for BlobResourceContents {
    type V = BlobResourceContentsView;

    open spec fn deep_view(&self) -> BlobResourceContentsView {
        BlobResourceContentsView {
            uri: self.uri.deep_view(),
            mime_type: self.mime_type.deep_view(),
            blob: self.blob.deep_view(),
        }
    }
}

impl Record for BlobResourceContents {
    open spec fn names() -> Set<Seq<char>> {
        set!["uri"@, "mimeType"@, "blob"@]
    }

    fn declares(key: &str) -> (b: bool) {
        same_text(key, "uri") || same_text(key, "mimeType") || same_text(key, "blob")
    }
}

impl BlobResourceContents {
    /// The declared fields of `v`, each with what is written for it.
    pub open spec fn members(v: BlobResourceContentsView) -> Members {
        Seq::empty()
            .push(member::<String>("uri"@, v.uri))
            .push(opt_member::<String>("mimeType"@, v.mime_type))
            .push(member::<String>("blob"@, v.blob))
    }

    /// The object that stands for `v`: its declared fields.
    #[verifier::opaque]
    pub open spec fn written(v: BlobResourceContentsView) -> JsonView {
        JsonView::Object(present(Self::members(v)))
    }

    /// What `j` is read as: an object in which no declared name occurs twice
    /// and every declared field reads; the first field that does not read
    /// gives the error. Other members are passed over.
    #[verifier::opaque]
    pub open spec fn read(j: JsonView) -> Result<BlobResourceContentsView, SchemaError> {
        match j {
            JsonView::Object(o) => {
                let uri = field::<String>(o, "uri"@);
                let mime_type = opt_field::<String>(o, "mimeType"@);
                let blob = field::<String>(o, "blob"@);
                if collides(o, Self::names()) {
                    Err(SchemaError::FieldCollision)
                } else if uri is Err {
                    Err(uri->Err_0)
                } else if mime_type is Err {
                    Err(mime_type->Err_0)
                } else if blob is Err {
                    Err(blob->Err_0)
                } else {
                    Ok(
                        BlobResourceContentsView {
                            uri: uri->Ok_0,
                            mime_type: mime_type->Ok_0,
                            blob: blob->Ok_0,
                        },
                    )
                }
            },
            _ => Err(SchemaError::ParamsShapeMismatch),
        }
    }

    /// The declared fields of a valid value have names of their own and
    /// well-formed values.
    pub proof fn lemma_members(v: BlobResourceContentsView)
        requires
            Self::valid(v),
        ensures
            members_ok(Self::members(v), Self::names()),
    {
        broadcast use group_record;

        reveal_strlit("uri");
        reveal_strlit("mimeType");
        reveal_strlit("blob");
        assert("uri"@.len() == 3);
        assert("mimeType"@.len() == 8);
        assert("blob"@.len() == 4);
        String::lemma_round_trip(v.uri);
        if v.mime_type is Some {
            String::lemma_round_trip(v.mime_type->Some_0);
        }
        String::lemma_round_trip(v.blob);
    }
}

impl Wire for BlobResourceContents {
    open spec fn valid(v: BlobResourceContentsView) -> bool {
        &&& String::valid(v.uri)
        &&& valid_opt::<String>(v.mime_type)
        &&& String::valid(v.blob)
    }

    open spec fn encode(v: BlobResourceContentsView) -> JsonView {
        Self::written(v)
    }

    open spec fn decode(j: JsonView) -> Result<BlobResourceContentsView, SchemaError> {
        Self::read(j)
    }

    fn to_json(&self) -> (j: Json) {
        let mut out = no_members();
        write_field::<String>(&mut out, "uri", &self.uri);
        write_opt_field::<String>(&mut out, "mimeType", &self.mime_type);
        write_field::<String>(&mut out, "blob", &self.blob);
        proof {
            broadcast use group_writer;

            reveal(BlobResourceContents::written);
            lemma_object_view(out);
        }
        Json::Object(out)
    }

    fn from_json(j: &Json) -> (r: Result<BlobResourceContents, SchemaError>) {
        proof {
            reveal(BlobResourceContents::read);
        }
        match j {
            Json::Object(entries) => {
                proof {
                    lemma_object_view(*entries);
                }
                if repeats::<BlobResourceContents>(entries) {
                    return Err(SchemaError::FieldCollision);
                }
                let uri = read_field::<String>(entries, "uri")?;
                let mime_type = read_opt_field::<String>(entries, "mimeType")?;
                let blob = read_field::<String>(entries, "blob")?;
                Ok(BlobResourceContents { uri, mime_type, blob })
            },
            _ => Err(SchemaError::ParamsShapeMismatch),
        }
    }

    proof fn lemma_round_trip(v: BlobResourceContentsView) {
        reveal(BlobResourceContents::written);
        reveal(BlobResourceContents::read);
        let m = Self::members(v);
        Self::lemma_members(v);
        lemma_written_record(m, Seq::empty(), Self::names());
        lemma_member_at(m, Self::names(), 0);
        lemma_member_at(m, Self::names(), 1);
        lemma_member_at(m, Self::names(), 2);
        String::lemma_round_trip(v.uri);
        if v.mime_type is Some {
            String::lemma_round_trip(v.mime_type->Some_0);
        }
        String::lemma_round_trip(v.blob);
        assert(present(m) + Seq::empty() =~= present(m));
    }
}

impl WireSound for BlobResourceContents {
    proof fn lemma_decoded_valid(j: JsonView) {
        broadcast use group_record;

        reveal(BlobResourceContents::written);
        reveal(BlobResourceContents::read);
        let o = j->Object_0;
        String::lemma_decoded_valid(get(o, "uri"@)->Some_0);
        if get(o, "mimeType"@) is Some && get(o, "mimeType"@) != Some(JsonView::Null) {
            String::lemma_decoded_valid(get(o, "mimeType"@)->Some_0);
        }
        String::lemma_decoded_valid(get(o, "blob"@)->Some_0);
    }
}

impl Layout for BlobResourceContents {
    open spec fn layout(v: BlobResourceContentsView) -> Members {
        Self::members(v)
    }

    open spec fn others(v: BlobResourceContentsView) -> Fields {
        Seq::empty()
    }

    proof fn lemma_layout(v: BlobResourceContentsView) {
        reveal(BlobResourceContents::written);
        Self::lemma_members(v);
        assert(Self::layout(v) == Self::members(v));
        assert(Self::others(v) == Seq::<(Seq<char>, JsonView)>::empty());
        assert(fields_wf(Seq::<(Seq<char>, JsonView)>::empty()));
        assert(present(Self::members(v)) + Seq::empty() =~= present(Self::members(v)));
    }
}

/// The answer to `resources/list`.
#[derive(Debug, Clone)]
pub struct ListResourcesResult {
    pub meta: Option<JsonObject>,
    pub next_cursor: Option<String>,
    pub resources: Vec<Resource>,
    pub extra: JsonObject,
}

/// [`ListResourcesResult`] as specifications see it.
pub struct ListResourcesResultView {
    pub meta: Option<Fields>,
    pub next_cursor: Option<Seq<char>>,
    pub resources: Seq<ResourceView>,
    pub extra: Fields,
}

impl DeepView for ListResourcesResult {
    type V = ListResourcesResultView;

    open spec fn deep_view(&self) -> ListResourcesResultView {
        ListResourcesResultView {
            meta: self.meta.deep_view(),
            next_cursor: self.next_cursor.deep_view(),
            resources: self.resources.deep_view(),
            extra: self.extra.deep_view(),
        }
    }
}

impl Record for ListResourcesResult {
    open spec fn names() -> Set<Seq<char>> {
        set!["_meta"@, "nextCursor"@, "resources"@]
    }

    fn declares(key: &str) -> (b: bool) {
        same_text(key, "_meta") || same_text(key, "nextCursor") || same_text(key, "resources")
    }
}

impl ListResourcesResult {
    /// The declared fields of `v`, each with what is written for it.
    pub open spec fn members(v: ListResourcesResultView) -> Members {
        Seq::empty()
            .push(opt_member::<JsonObject>("_meta"@, v.meta))
            .push(opt_member::<String>("nextCursor"@, v.next_cursor))
            .push(member::<Vec<Resource>>("resources"@, v.resources))
    }

    /// The object that stands for `v`: its declared fields, then its other
    /// members.
    #[verifier::opaque]
    pub open spec fn written(v: ListResourcesResultView) -> JsonView {
        JsonView::Object(present(Self::members(v)) + v.extra)
    }

    /// What `j` is read as: an object in which no declared name occurs twice
    /// and every declared field reads; the first field that does not read
    /// gives the error. The other members are kept.
    #[verifier::opaque]
    pub open spec fn read(j: JsonView) -> Result<ListResourcesResultView, SchemaError> {
        match j {
            JsonView::Object(o) => {
                let meta = opt_field::<JsonObject>(o, "_meta"@);
                let next_cursor = opt_field::<String>(o, "nextCursor"@);
                let resources = field::<Vec<Resource>>(o, "resources"@);
                if collides(o, Self::names()) {
                    Err(SchemaError::FieldCollision)
                } else if meta is Err {
                    Err(meta->Err_0)
                } else if next_cursor is Err {
                    Err(next_cursor->Err_0)
                } else if resources is Err {
                    Err(resources->Err_0)
                } else {
                    Ok(
                        ListResourcesResultView {
                            meta: meta->Ok_0,
                            next_cursor: next_cursor->Ok_0,
                            resources: resources->Ok_0,
                            extra: without(o, Self::names()),
                        },
                    )
                }
            },
            _ => Err(SchemaError::ParamsShapeMismatch),
        }
    }

    /// The declared fields of a valid value have names of their own and
    /// well-formed values.
    pub proof fn lemma_members(v: ListResourcesResultView)
        requires
            Self::valid(v),
        ensures
            members_ok(Self::members(v), Self::names()),
    {
        broadcast use group_record;

        reveal_strlit("_meta");
        reveal_strlit("nextCursor");
        reveal_strlit("resources");
        assert("_meta"@.len() == 5);
        assert("nextCursor"@.len() == 10);
        assert("resources"@.len() == 9);
        if v.meta is Some {
            JsonObject::lemma_round_trip(v.meta->Some_0);
        }
        if v.next_cursor is Some {
            String::lemma_round_trip(v.next_cursor->Some_0);
        }
        Vec::<Resource>::lemma_round_trip(v.resources);
    }
}

impl Wire for ListResourcesResult {
    open spec fn valid(v: ListResourcesResultView) -> bool {
        &&& valid_opt::<JsonObject>(v.meta)
        &&& valid_opt::<String>(v.next_cursor)
        &&& Vec::<Resource>::valid(v.resources)
        &&& fields_wf(v.extra)
        &&& avoids(v.extra, Self::names())
    }

    open spec fn encode(v: ListResourcesResultView) -> JsonView {
        Self::written(v)
    }

    open spec fn decode(j: JsonView) -> Result<ListResourcesResultView, SchemaError> {
        Self::read(j)
    }

    fn to_json(&self) -> (j: Json) {
        let mut out = no_members();
        write_opt_field::<JsonObject>(&mut out, "_meta", &self.meta);
        write_opt_field::<String>(&mut out, "nextCursor", &self.next_cursor);
        write_field::<Vec<Resource>>(&mut out, "resources", &self.resources);
        write_rest(&mut out, &self.extra);
        proof {
            broadcast use group_writer;

            reveal(ListResourcesResult::written);
            lemma_object_view(out);
        }
        Json::Object(out)
    }

    fn from_json(j: &Json) -> (r: Result<ListResourcesResult, SchemaError>) {
        proof {
            reveal(ListResourcesResult::read);
        }
        match j {
            Json::Object(entries) => {
                proof {
                    lemma_object_view(*entries);
                }
                if repeats::<ListResourcesResult>(entries) {
                    return Err(SchemaError::FieldCollision);
                }
                let meta = read_opt_field::<JsonObject>(entries, "_meta")?;
                let next_cursor = read_opt_field::<String>(entries, "nextCursor")?;
                let resources = read_field::<Vec<Resource>>(entries, "resources")?;
                Ok(
                    ListResourcesResult {
                        meta,
                        next_cursor,
                        resources,
                        extra: rest::<ListResourcesResult>(entries),
                    },
                )
            },
            _ => Err(SchemaError::ParamsShapeMismatch),
        }
    }

    proof fn lemma_round_trip(v: ListResourcesResultView) {
        reveal(ListResourcesResult::written);
        reveal(ListResourcesResult::read);
        let m = Self::members(v);
        Self::lemma_members(v);
        lemma_written_record(m, v.extra, Self::names());
        lemma_member_at(m, Self::names(), 0);
        lemma_member_at(m, Self::names(), 1);
        lemma_member_at(m, Self::names(), 2);
        if v.meta is Some {
            JsonObject::lemma_round_trip(v.meta->Some_0);
        }
        if v.next_cursor is Some {
            String::lemma_round_trip(v.next_cursor->Some_0);
        }
        Vec::<Resource>::lemma_round_trip(v.resources);
    }
}

impl WireSound for ListResourcesResult {
    proof fn lemma_decoded_valid(j: JsonView) {
        broadcast use group_record;

        reveal(ListResourcesResult::written);
        reveal(ListResourcesResult::read);
        let o = j->Object_0;
        if get(o, "_meta"@) is Some && get(o, "_meta"@) != Some(JsonView::Null) {
            JsonObject::lemma_decoded_valid(get(o, "_meta"@)->Some_0);
        }
        if get(o, "nextCursor"@) is Some && get(o, "nextCursor"@) != Some(JsonView::Null) {
            String::lemma_decoded_valid(get(o, "nextCursor"@)->Some_0);
        }
        Vec::<Resource>::lemma_decoded_valid(get(o, "resources"@)->Some_0);
        lemma_without_members(o, Self::names());
    }
}

impl Layout for ListResourcesResult {
    open spec fn layout(v: ListResourcesResultView) -> Members {
        Self::members(v)
    }

    open spec fn others(v: ListResourcesResultView) -> Fields {
        v.extra
    }

    proof fn lemma_layout(v: ListResourcesResultView) {
        reveal(ListResourcesResult::written);
        Self::lemma_members(v);
    }
}

/// The answer to `resources/templates/list`.
#[derive(Debug, Clone)]
pub struct ListResourceTemplatesResult {
    pub meta: Option<JsonObject>,
    pub next_cursor: Option<String>,
    pub resource_templates: Vec<ResourceTemplate>,
    pub extra: JsonObject,
}

/// [`ListResourceTemplatesResult`] as specifications see it.
pub struct ListResourceTemplatesResultView {
    pub meta: Option<Fields>,
    pub next_cursor: Option<Seq<char>>,
    pub resource_templates: Seq<ResourceTemplateView>,
    pub extra: Fields,
}

impl DeepView for ListResourceTemplatesResult {
    type V = ListResourceTemplatesResultView;

    open spec fn deep_view(&self) -> ListResourceTemplatesResultView {
        ListResourceTemplatesResultView {
            meta: self.meta.deep_view(),
            next_cursor: self.next_cursor.deep_view(),
            resource_templates: self.resource_templates.deep_view(),
            extra: self.extra.deep_view(),
        }
    }
}

impl Record for ListResourceTemplatesResult {
    open spec fn names() -> Set<Seq<char>> {
        set!["_meta"@, "nextCursor"@, "resourceTemplates"@]
    }

    fn declares(key: &str) -> (b: bool) {
        same_text(key, "_meta")
            || same_text(key, "nextCursor")
            || same_text(key, "resourceTemplates")
    }
}

impl ListResourceTemplatesResult {
    /// The declared fields of `v`, each with what is written for it.
    pub open spec fn members(v: ListResourceTemplatesResultView) -> Members {
        Seq::empty()
            .push(opt_member::<JsonObject>("_meta"@, v.meta))
            .push(opt_member::<String>("nextCursor"@, v.next_cursor))
            .push(member::<Vec<ResourceTemplate>>("resourceTemplates"@, v.resource_templates))
    }

    /// The object that stands for `v`: its declared fields, then its other
    /// members.
    #[verifier::opaque]
    pub open spec fn written(v: ListResourceTemplatesResultView) -> JsonView {
        JsonView::Object(present(Self::members(v)) + v.extra)
    }

    /// What `j` is read as: an object in which no declared name occurs twice
    /// and every declared field reads; the first field that does not read
    /// gives the error. The other members are kept.
    #[verifier::opaque]
    pub open spec fn read(j: JsonView) -> Result<ListResourceTemplatesResultView, SchemaError> {
        match j {
            JsonView::Object(o) => {
                let meta = opt_field::<JsonObject>(o, "_meta"@);
                let next_cursor = opt_field::<String>(o, "nextCursor"@);
                let resource_templates = field::<Vec<ResourceTemplate>>(o, "resourceTemplates"@);
                if collides(o, Self::names()) {
                    Err(SchemaError::FieldCollision)
                } else if meta is Err {
                    Err(meta->Err_0)
                } else if next_cursor is Err {
                    Err(next_cursor->Err_0)
                } else if resource_templates is Err {
                    Err(resource_templates->Err_0)
                } else {
                    Ok(
                        ListResourceTemplatesResultView {
                            meta: meta->Ok_0,
                            next_cursor: next_cursor->Ok_0,
                            resource_templates: resource_templates->Ok_0,
                            extra: without(o, Self::names()),
                        },
                    )
                }
            },
            _ => Err(SchemaError::ParamsShapeMismatch),
        }
    }

    /// The declared fields of a valid value have names of their own and
    /// well-formed values.
    pub proof fn lemma_members(v: ListResourceTemplatesResultView)
        requires
            Self::valid(v),
        ensures
            members_ok(Self::members(v), Self::names()),
    {
        broadcast use group_record;

        reveal_strlit("_meta");
        reveal_strlit("nextCursor");
        reveal_strlit("resourceTemplates");
        assert("_meta"@.len() == 5);
        assert("nextCursor"@.len() == 10);
        assert("resourceTemplates"@.len() == 17);
        if v.meta is Some {
            JsonObject::lemma_round_trip(v.meta->Some_0);
        }
        if v.next_cursor is Some {
            String::lemma_round_trip(v.next_cursor->Some_0);
        }
        Vec::<ResourceTemplate>::lemma_round_trip(v.resource_templates);
    }
}

impl Wire for ListResourceTemplatesResult {
    open spec fn valid(v: ListResourceTemplatesResultView) -> bool {
        &&& valid_opt::<JsonObject>(v.meta)
        &&& valid_opt::<String>(v.next_cursor)
        &&& Vec::<ResourceTemplate>::valid(v.resource_templates)
        &&& fields_wf(v.extra)
        &&& avoids(v.extra, Self::names())
    }

    open spec fn encode(v: ListResourceTemplatesResultView) -> JsonView {
        Self::written(v)
    }

    open spec fn decode(j: JsonView) -> Result<ListResourceTemplatesResultView, SchemaError> {
        Self::read(j)
    }

    fn to_json(&self) -> (j: Json) {
        let mut out = no_members();
        write_opt_field::<JsonObject>(&mut out, "_meta", &self.meta);
        write_opt_field::<String>(&mut out, "nextCursor", &self.next_cursor);
        write_field::<Vec<ResourceTemplate>>(
            &mut out,
            "resourceTemplates",
            &self.resource_templates,
        );
        write_rest(&mut out, &self.extra);
        proof {
            broadcast use group_writer;

            reveal(ListResourceTemplatesResult::written);
            lemma_object_view(out);
        }
        Json::Object(out)
    }

    fn from_json(j: &Json) -> (r: Result<ListResourceTemplatesResult, SchemaError>) {
        proof {
            reveal(ListResourceTemplatesResult::read);
        }
        match j {
            Json::Object(entries) => {
                proof {
                    lemma_object_view(*entries);
                }
                if repeats::<ListResourceTemplatesResult>(entries) {
                    return Err(SchemaError::FieldCollision);
                }
                let meta = read_opt_field::<JsonObject>(entries, "_meta")?;
                let next_cursor = read_opt_field::<String>(entries, "nextCursor")?;
                let resource_templates = read_field::<Vec<ResourceTemplate>>(
                    entries,
                    "resourceTemplates",
                )?;
                Ok(
                    ListResourceTemplatesResult {
                        meta,
                        next_cursor,
                        resource_templates,
                        extra: rest::<ListResourceTemplatesResult>(entries),
                    },
                )
            },
            _ => Err(SchemaError::ParamsShapeMismatch),
        }
    }

    proof fn lemma_round_trip(v: ListResourceTemplatesResultView) {
        reveal(ListResourceTemplatesResult::written);
        reveal(ListResourceTemplatesResult::read);
        let m = Self::members(v);
        Self::lemma_members(v);
        lemma_written_record(m, v.extra, Self::names());
        lemma_member_at(m, Self::names(), 0);
        lemma_member_at(m, Self::names(), 1);
        lemma_member_at(m, Self::names(), 2);
        if v.meta is Some {
            JsonObject::lemma_round_trip(v.meta->Some_0);
        }
        if v.next_cursor is Some {
            String::lemma_round_trip(v.next_cursor->Some_0);
        }
        Vec::<ResourceTemplate>::lemma_round_trip(v.resource_templates);
    }
}

impl WireSound for ListResourceTemplatesResult {
    proof fn lemma_decoded_valid(j: JsonView) {
        broadcast use group_record;

        reveal(ListResourceTemplatesResult::written);
        reveal(ListResourceTemplatesResult::read);
        let o = j->Object_0;
        if get(o, "_meta"@) is Some && get(o, "_meta"@) != Some(JsonView::Null) {
            JsonObject::lemma_decoded_valid(get(o, "_meta"@)->Some_0);
        }
        if get(o, "nextCursor"@) is Some && get(o, "nextCursor"@) != Some(JsonView::Null) {
            String::lemma_decoded_valid(get(o, "nextCursor"@)->Some_0);
        }
        Vec::<ResourceTemplate>::lemma_decoded_valid(get(o, "resourceTemplates"@)->Some_0);
        lemma_without_members(o, Self::names());
    }
}

impl Layout for ListResourceTemplatesResult {
    open spec fn layout(v: ListResourceTemplatesResultView) -> Members {
        Self::members(v)
    }

    open spec fn others(v: ListResourceTemplatesResultView) -> Fields {
        v.extra
    }

    proof fn lemma_layout(v: ListResourceTemplatesResultView) {
        reveal(ListResourceTemplatesResult::written);
        Self::lemma_members(v);
    }
}

/// The parameters of `resources/read`.
#[derive(Debug, Clone)]
pub struct ReadResourceParams {
    pub uri: String,
    pub extra: JsonObject,
}

/// [`ReadResourceParams`] as specifications see it.
pub struct ReadResourceParamsView {
    pub uri: Seq<char>,
    pub extra: Fields,
}

impl DeepView for ReadResourceParams {
    type V = ReadResourceParamsView;

    open spec fn deep_view(&self) -> ReadResourceParamsView {
        ReadResourceParamsView {
            uri: self.uri.deep_view(),
            extra: self.extra.deep_view(),
        }
    }
}

impl Record for ReadResourceParams {
    open spec fn names() -> Set<Seq<char>> {
        set!["uri"@]
    }

    fn declares(key: &str) -> (b: bool) {
        same_text(key, "uri")
    }
}

impl ReadResourceParams {
    /// The declared fields of `v`, each with what is written for it.
    pub open spec fn members(v: ReadResourceParamsView) -> Members {
        Seq::empty()
            .push(member::<String>("uri"@, v.uri))
    }

    /// The object that stands for `v`: its declared fields, then its other
    /// members.
    #[verifier::opaque]
    pub open spec fn written(v: ReadResourceParamsView) -> JsonView {
        JsonView::Object(present(Self::members(v)) + v.extra)
    }

    /// What `j` is read as: an object in which no declared name occurs twice
    /// and every declared field reads; the first field that does not read
    /// gives the error. The other members are kept.
    #[verifier::opaque]
    pub open spec fn read(j: JsonView) -> Result<ReadResourceParamsView, SchemaError> {
        match j {
            JsonView::Object(o) => {
                let uri = field::<String>(o, "uri"@);
                if collides(o, Self::names()) {
                    Err(SchemaError::FieldCollision)
                } else if uri is Err {
                    Err(uri->Err_0)
                } else {
                    Ok(
                        ReadResourceParamsView {
                            uri: uri->Ok_0,
                            extra: without(o, Self::names()),
                        },
                    )
                }
            },
            _ => Err(SchemaError::ParamsShapeMismatch),
        }
    }

    /// The declared fields of a valid value have names of their own and
    /// well-formed values.
    pub proof fn lemma_members(v: ReadResourceParamsView)
        requires
            Self::valid(v),
        ensures
            members_ok(Self::members(v), Self::names()),
    {
        broadcast use group_record;

        reveal_strlit("uri");
        assert("uri"@.len() == 3);
        String::lemma_round_trip(v.uri);
    }
}

impl Wire for ReadResourceParams {
    open spec fn valid(v: ReadResourceParamsView) -> bool {
        &&& String::valid(v.uri)
        &&& fields_wf(v.extra)
        &&& avoids(v.extra, Self::names())
    }

    open spec fn encode(v: ReadResourceParamsView) -> JsonView {
        Self::written(v)
    }

    open spec fn decode(j: JsonView) -> Result<ReadResourceParamsView, SchemaError> {
        Self::read(j)
    }

    fn to_json(&self) -> (j: Json) {
        let mut out = no_members();
        write_field::<String>(&mut out, "uri", &self.uri);
        write_rest(&mut out, &self.extra);
        proof {
            broadcast use group_writer;

            reveal(ReadResourceParams::written);
            lemma_object_view(out);
        }
        Json::Object(out)
    }

    fn from_json(j: &Json) -> (r: Result<ReadResourceParams, SchemaError>) {
        proof {
            reveal(ReadResourceParams::read);
        }
        match j {
            Json::Object(entries) => {
                proof {
                    lemma_object_view(*entries);
                }
                if repeats::<ReadResourceParams>(entries) {
                    return Err(SchemaError::FieldCollision);
                }
                let uri = read_field::<String>(entries, "uri")?;
                Ok(ReadResourceParams { uri, extra: rest::<ReadResourceParams>(entries) })
            },
            _ => Err(SchemaError::ParamsShapeMismatch),
        }
    }

    proof fn lemma_round_trip(v: ReadResourceParamsView) {
        reveal(ReadResourceParams::written);
        reveal(ReadResourceParams::read);
        let m = Self::members(v);
        Self::lemma_members(v);
        lemma_written_record(m, v.extra, Self::names());
        lemma_member_at(m, Self::names(), 0);
        String::lemma_round_trip(v.uri);
    }
}

impl WireSound for ReadResourceParams {
    proof fn lemma_decoded_valid(j: JsonView) {
        broadcast use group_record;

        reveal(ReadResourceParams::written);
        reveal(ReadResourceParams::read);
        let o = j->Object_0;
        String::lemma_decoded_valid(get(o, "uri"@)->Some_0);
        lemma_without_members(o, Self::names());
    }
}

impl Layout for ReadResourceParams {
    open spec fn layout(v: ReadResourceParamsView) -> Members {
        Self::members(v)
    }

    open spec fn others(v: ReadResourceParamsView) -> Fields {
        v.extra
    }

    proof fn lemma_layout(v: ReadResourceParamsView) {
        reveal(ReadResourceParams::written);
        Self::lemma_members(v);
    }
}

/// The answer to `resources/read`.
#[derive(Debug, Clone)]
pub struct ReadResourceResult {
    pub meta: Option<JsonObject>,
    pub contents: Vec<ResourceContents>,
    pub extra: JsonObject,
}

/// [`ReadResourceResult`] as specifications see it.
pub struct ReadResourceResultView {
    pub meta: Option<Fields>,
    pub contents: Seq<ResourceContentsView>,
    pub extra: Fields,
}

impl DeepView for ReadResourceResult {
    type V = ReadResourceResultView;

    open spec fn deep_view(&self) -> ReadResourceResultView {
        ReadResourceResultView {
            meta: self.meta.deep_view(),
            contents: self.contents.deep_view(),
            extra: self.extra.deep_view(),
        }
    }
}

impl Record for ReadResourceResult {
    open spec fn names() -> Set<Seq<char>> {
        set!["_meta"@, "contents"@]
    }

    fn declares(key: &str) -> (b: bool) {
        same_text(key, "_meta") || same_text(key, "contents")
    }
}

impl ReadResourceResult {
    /// The declared fields of `v`, each with what is written for it.
    pub open spec fn members(v: ReadResourceResultView) -> Members {
        Seq::empty()
            .push(opt_member::<JsonObject>("_meta"@, v.meta))
            .push(member::<Vec<ResourceContents>>("contents"@, v.contents))
    }

    /// The object that stands for `v`: its declared fields, then its other
    /// members.
    #[verifier::opaque]
    pub open spec fn written(v: ReadResourceResultView) -> JsonView {
        JsonView::Object(present(Self::members(v)) + v.extra)
    }

    /// What `j` is read as: an object in which no declared name occurs twice
    /// and every declared field reads; the first field that does not read
    /// gives the error. The other members are kept.
    #[verifier::opaque]
    pub open spec fn read(j: JsonView) -> Result<ReadResourceResultView, SchemaError> {
        match j {
            JsonView::Object(o) => {
                let meta = opt_field::<JsonObject>(o, "_meta"@);
                let contents = field::<Vec<ResourceContents>>(o, "contents"@);
                if collides(o, Self::names()) {
                    Err(SchemaError::FieldCollision)
                } else if meta is Err {
                    Err(meta->Err_0)
                } else if contents is Err {
                    Err(contents->Err_0)
                } else {
                    Ok(
                        ReadResourceResultView {
                            meta: meta->Ok_0,
                            contents: contents->Ok_0,
                            extra: without(o, Self::names()),
                        },
                    )
                }
            },
            _ => Err(SchemaError::ParamsShapeMismatch),
        }
    }

    /// The declared fields of a valid value have names of their own and
    /// well-formed values.
    pub proof fn lemma_members(v: ReadResourceResultView)
        requires
            Self::valid(v),
        ensures
            members_ok(Self::members(v), Self::names()),
    {
        broadcast use group_record;

        reveal_strlit("_meta");
        reveal_strlit("contents");
        assert("_meta"@.len() == 5);
        assert("contents"@.len() == 8);
        if v.meta is Some {
            JsonObject::lemma_round_trip(v.meta->Some_0);
        }
        Vec::<ResourceContents>::lemma_round_trip(v.contents);
    }
}

impl Wire for ReadResourceResult {
    open spec fn valid(v: ReadResourceResultView) -> bool {
        &&& valid_opt::<JsonObject>(v.meta)
        &&& Vec::<ResourceContents>::valid(v.contents)
        &&& fields_wf(v.extra)
        &&& avoids(v.extra, Self::names())
    }

    open spec fn encode(v: ReadResourceResultView) -> JsonView {
        Self::written(v)
    }

    open spec fn decode(j: JsonView) -> Result<ReadResourceResultView, SchemaError> {
        Self::read(j)
    }

    fn to_json(&self) -> (j: Json) {
        let mut out = no_members();
        write_opt_field::<JsonObject>(&mut out, "_meta", &self.meta);
        write_field::<Vec<ResourceContents>>(&mut out, "contents", &self.contents);
        write_rest(&mut out, &self.extra);
        proof {
            broadcast use group_writer;

            reveal(ReadResourceResult::written);
            lemma_object_view(out);
        }
        Json::Object(out)
    }

    fn from_json(j: &Json) -> (r: Result<ReadResourceResult, SchemaError>) {
        proof {
            reveal(ReadResourceResult::read);
        }
        match j {
            Json::Object(entries) => {
                proof {
                    lemma_object_view(*entries);
                }
                if repeats::<ReadResourceResult>(entries) {
                    return Err(SchemaError::FieldCollision);
                }
                let meta = read_opt_field::<JsonObject>(entries, "_meta")?;
                let contents = read_field::<Vec<ResourceContents>>(entries, "contents")?;
                Ok(
                    ReadResourceResult {
                        meta,
                        contents,
                        extra: rest::<ReadResourceResult>(entries),
                    },
                )
            },
            _ => Err(SchemaError::ParamsShapeMismatch),
        }
    }

    proof fn lemma_round_trip(v: ReadResourceResultView) {
        reveal(ReadResourceResult::written);
        reveal(ReadResourceResult::read);
        let m = Self::members(v);
        Self::lemma_members(v);
        lemma_written_record(m, v.extra, Self::names());
        lemma_member_at(m, Self::names(), 0);
        lemma_member_at(m, Self::names(), 1);
        if v.meta is Some {
            JsonObject::lemma_round_trip(v.meta->Some_0);
        }
        Vec::<ResourceContents>::lemma_round_trip(v.contents);
    }
}

impl WireSound for ReadResourceResult {
    proof fn lemma_decoded_valid(j: JsonView) {
        broadcast use group_record;

        reveal(ReadResourceResult::written);
        reveal(ReadResourceResult::read);
        let o = j->Object_0;
        if get(o, "_meta"@) is Some && get(o, "_meta"@) != Some(JsonView::Null) {
            JsonObject::lemma_decoded_valid(get(o, "_meta"@)->Some_0);
        }
        Vec::<ResourceContents>::lemma_decoded_valid(get(o, "contents"@)->Some_0);
        lemma_without_members(o, Self::names());
    }
}

impl Layout for ReadResourceResult {
    open spec fn layout(v: ReadResourceResultView) -> Members {
        Self::members(v)
    }

    open spec fn others(v: ReadResourceResultView) -> Fields {
        v.extra
    }

    proof fn lemma_layout(v: ReadResourceResultView) {
        reveal(ReadResourceResult::written);
        Self::lemma_members(v);
    }
}

/// The parameters of `resources/subscribe`.
#[derive(Debug, Clone)]
pub struct SubscribeParams {
    pub uri: String,
    pub extra: JsonObject,
}

/// [`SubscribeParams`] as specifications see it.
pub struct SubscribeParamsView {
    pub uri: Seq<char>,
    pub extra: Fields,
}

impl DeepView for SubscribeParams {
    type V = SubscribeParamsView;

    open spec fn deep_view(&self) -> SubscribeParamsView {
        SubscribeParamsView {
            uri: self.uri.deep_view(),
            extra: self.extra.deep_view(),
        }
    }
}

impl Record for SubscribeParams {
    open spec fn names() -> Set<Seq<char>> {
        set!["uri"@]
    }

    fn declares(key: &str) -> (b: bool) {
        same_text(key, "uri")
    }
}

impl SubscribeParams {
    /// The declared fields of `v`, each with what is written for it.
    pub open spec fn members(v: SubscribeParamsView) -> Members {
        Seq::empty()
            .push(member::<String>("uri"@, v.uri))
    }

    /// The object that stands for `v`: its declared fields, then its other
    /// members.
    #[verifier::opaque]
    pub open spec fn written(v: SubscribeParamsView) -> JsonView {
        JsonView::Object(present(Self::members(v)) + v.extra)
    }

    /// What `j` is read as: an object in which no declared name occurs twice
    /// and every declared field reads; the first field that does not read
    /// gives the error. The other members are kept.
    #[verifier::opaque]
    pub open spec fn read(j: JsonView) -> Result<SubscribeParamsView, SchemaError> {
        match j {
            JsonView::Object(o) => {
                let uri = field::<String>(o, "uri"@);
                if collides(o, Self::names()) {
                    Err(SchemaError::FieldCollision)
                } else if uri is Err {
                    Err(uri->Err_0)
                } else {
                    Ok(
                        SubscribeParamsView {
                            uri: uri->Ok_0,
                            extra: without(o, Self::names()),
                        },
                    )
                }
            },
            _ => Err(SchemaError::ParamsShapeMismatch),
        }
    }

    /// The declared fields of a valid value have names of their own and
    /// well-formed values.
    pub proof fn lemma_members(v: SubscribeParamsView)
        requires
            Self::valid(v),
        ensures
            members_ok(Self::members(v), Self::names()),
    {
        broadcast use group_record;

        reveal_strlit("uri");
        assert("uri"@.len() == 3);
        String::lemma_round_trip(v.uri);
    }
}

impl Wire for SubscribeParams {
    open spec fn valid(v: SubscribeParamsView) -> bool {
        &&& String::valid(v.uri)
        &&& fields_wf(v.extra)
        &&& avoids(v.extra, Self::names())
    }

    open spec fn encode(v: SubscribeParamsView) -> JsonView {
        Self::written(v)
    }

    open spec fn decode(j: JsonView) -> Result<SubscribeParamsView, SchemaError> {
        Self::read(j)
    }

    fn to_json(&self) -> (j: Json) {
        let mut out = no_members();
        write_field::<String>(&mut out, "uri", &self.uri);
        write_rest(&mut out, &self.extra);
        proof {
            broadcast use group_writer;

            reveal(SubscribeParams::written);
            lemma_object_view(out);
        }
        Json::Object(out)
    }

    fn from_json(j: &Json) -> (r: Result<SubscribeParams, SchemaError>) {
        proof {
            reveal(SubscribeParams::read);
        }
        match j {
            Json::Object(entries) => {
                proof {
                    lemma_object_view(*entries);
                }
                if repeats::<SubscribeParams>(entries) {
                    return Err(SchemaError::FieldCollision);
                }
                let uri = read_field::<String>(entries, "uri")?;
                Ok(SubscribeParams { uri, extra: rest::<SubscribeParams>(entries) })
            },
            _ => Err(SchemaError::ParamsShapeMismatch),
        }
    }

    proof fn lemma_round_trip(v: SubscribeParamsView) {
        reveal(SubscribeParams::written);
        reveal(SubscribeParams::read);
        let m = Self::members(v);
        Self::lemma_members(v);
        lemma_written_record(m, v.extra, Self::names());
        lemma_member_at(m, Self::names(), 0);
        String::lemma_round_trip(v.uri);
    }
}

impl WireSound for SubscribeParams {
    proof fn lemma_decoded_valid(j: JsonView) {
        broadcast use group_record;

        reveal(SubscribeParams::written);
        reveal(SubscribeParams::read);
        let o = j->Object_0;
        String::lemma_decoded_valid(get(o, "uri"@)->Some_0);
        lemma_without_members(o, Self::names());
    }
}

impl Layout for SubscribeParams {
    open spec fn layout(v: SubscribeParamsView) -> Members {
        Self::members(v)
    }

    open spec fn others(v: SubscribeParamsView) -> Fields {
        v.extra
    }

    proof fn lemma_layout(v: SubscribeParamsView) {
        reveal(SubscribeParams::written);
        Self::lemma_members(v);
    }
}

/// The parameters of `resources/unsubscribe`.
#[derive(Debug, Clone)]
pub struct UnsubscribeParams {
    pub uri: String,
    pub extra: JsonObject,
}

/// [`UnsubscribeParams`] as specifications see it.
pub struct UnsubscribeParamsView {
    pub uri: Seq<char>,
    pub extra: Fields,
}

impl DeepView for UnsubscribeParams {
    type V = UnsubscribeParamsView;

    open spec fn deep_view(&self) -> UnsubscribeParamsView {
        UnsubscribeParamsView {
            uri: self.uri.deep_view(),
            extra: self.extra.deep_view(),
        }
    }
}

impl Record for UnsubscribeParams {
    open spec fn names() -> Set<Seq<char>> {
        set!["uri"@]
    }

    fn declares(key: &str) -> (b: bool) {
        same_text(key, "uri")
    }
}

impl UnsubscribeParams {
    /// The declared fields of `v`, each with what is written for it.
    pub open spec fn members(v: UnsubscribeParamsView) -> Members {
        Seq::empty()
            .push(member::<String>("uri"@, v.uri))
    }

    /// The object that stands for `v`: its declared fields, then its other
    /// members.
    #[verifier::opaque]
    pub open spec fn written(v: UnsubscribeParamsView) -> JsonView {
        JsonView::Object(present(Self::members(v)) + v.extra)
    }

    /// What `j` is read as: an object in which no declared name occurs twice
    /// and every declared field reads; the first field that does not read
    /// gives the error. The other members are kept.
    #[verifier::opaque]
    pub open spec fn read(j: JsonView) -> Result<UnsubscribeParamsView, SchemaError> {
        match j {
            JsonView::Object(o) => {
                let uri = field::<String>(o, "uri"@);
                if collides(o, Self::names()) {
                    Err(SchemaError::FieldCollision)
                } else if uri is Err {
                    Err(uri->Err_0)
                } else {
                    Ok(
                        UnsubscribeParamsView {
                            uri: uri->Ok_0,
                            extra: without(o, Self::names()),
                        },
                    )
                }
            },
            _ => Err(SchemaError::ParamsShapeMismatch),
        }
    }

    /// The declared fields of a valid value have names of their own and
    /// well-formed values.
    pub proof fn lemma_members(v: UnsubscribeParamsView)
        requires
            Self::valid(v),
        ensures
            members_ok(Self::members(v), Self::names()),
    {
        broadcast use group_record;

        reveal_strlit("uri");
        assert("uri"@.len() == 3);
        String::lemma_round_trip(v.uri);
    }
}

impl Wire for UnsubscribeParams {
    open spec fn valid(v: UnsubscribeParamsView) -> bool {
        &&& String::valid(v.uri)
        &&& fields_wf(v.extra)
        &&& avoids(v.extra, Self::names())
    }

    open spec fn encode(v: UnsubscribeParamsView) -> JsonView {
        Self::written(v)
    }

    open spec fn decode(j: JsonView) -> Result<UnsubscribeParamsView, SchemaError> {
        Self::read(j)
    }

    fn to_json(&self) -> (j: Json) {
        let mut out = no_members();
        write_field::<String>(&mut out, "uri", &self.uri);
        write_rest(&mut out, &self.extra);
        proof {
            broadcast use group_writer;

            reveal(UnsubscribeParams::written);
            lemma_object_view(out);
        }
        Json::Object(out)
    }

    fn from_json(j: &Json) -> (r: Result<UnsubscribeParams, SchemaError>) {
        proof {
            reveal(UnsubscribeParams::read);
        }
        match j {
            Json::Object(entries) => {
                proof {
                    lemma_object_view(*entries);
                }
                if repeats::<UnsubscribeParams>(entries) {
                    return Err(SchemaError::FieldCollision);
                }
                let uri = read_field::<String>(entries, "uri")?;
                Ok(UnsubscribeParams { uri, extra: rest::<UnsubscribeParams>(entries) })
            },
            _ => Err(SchemaError::ParamsShapeMismatch),
        }
    }

    proof fn lemma_round_trip(v: UnsubscribeParamsView) {
        reveal(UnsubscribeParams::written);
        reveal(UnsubscribeParams::read);
        let m = Self::members(v);
        Self::lemma_members(v);
        lemma_written_record(m, v.extra, Self::names());
        lemma_member_at(m, Self::names(), 0);
        String::lemma_round_trip(v.uri);
    }
}

impl WireSound for UnsubscribeParams {
    proof fn lemma_decoded_valid(j: JsonView) {
        broadcast use group_record;

        reveal(UnsubscribeParams::written);
        reveal(UnsubscribeParams::read);
        let o = j->Object_0;
        String::lemma_decoded_valid(get(o, "uri"@)->Some_0);
        lemma_without_members(o, Self::names());
    }
}

impl Layout for UnsubscribeParams {
    open spec fn layout(v: UnsubscribeParamsView) -> Members {
        Self::members(v)
    }

    open spec fn others(v: UnsubscribeParamsView) -> Fields {
        v.extra
    }

    proof fn lemma_layout(v: UnsubscribeParamsView) {
        reveal(UnsubscribeParams::written);
        Self::lemma_members(v);
    }
}

/// The parameters of `notifications/resources/updated`.
#[derive(Debug, Clone)]
pub struct ResourceUpdatedParams {
    pub uri: String,
    pub extra: JsonObject,
}

/// [`ResourceUpdatedParams`] as specifications see it.
pub struct ResourceUpdatedParamsView {
    pub uri: Seq<char>,
    pub extra: Fields,
}

impl DeepView for ResourceUpdatedParams {
    type V = ResourceUpdatedParamsView;

    open spec fn deep_view(&self) -> ResourceUpdatedParamsView {
        ResourceUpdatedParamsView {
            uri: self.uri.deep_view(),
            extra: self.extra.deep_view(),
        }
    }
}

impl Record for ResourceUpdatedParams {
    open spec fn names() -> Set<Seq<char>> {
        set!["uri"@]
    }

    fn declares(key: &str) -> (b: bool) {
        same_text(key, "uri")
    }
}

impl ResourceUpdatedParams {
    /// The declared fields of `v`, each with what is written for it.
    pub open spec fn members(v: ResourceUpdatedParamsView) -> Members {
        Seq::empty()
            .push(member::<String>("uri"@, v.uri))
    }

    /// The object that stands for `v`: its declared fields, then its other
    /// members.
    #[verifier::opaque]
    pub open spec fn written(v: ResourceUpdatedParamsView) -> JsonView {
        JsonView::Object(present(Self::members(v)) + v.extra)
    }

    /// What `j` is read as: an object in which no declared name occurs twice
    /// and every declared field reads; the first field that does not read
    /// gives the error. The other members are kept.
    #[verifier::opaque]
    pub open spec fn read(j: JsonView) -> Result<ResourceUpdatedParamsView, SchemaError> {
        match j {
            JsonView::Object(o) => {
                let uri = field::<String>(o, "uri"@);
                if collides(o, Self::names()) {
                    Err(SchemaError::FieldCollision)
                } else if uri is Err {
                    Err(uri->Err_0)
                } else {
                    Ok(
                        ResourceUpdatedParamsView {
                            uri: uri->Ok_0,
                            extra: without(o, Self::names()),
                        },
                    )
                }
            },
            _ => Err(SchemaError::ParamsShapeMismatch),
        }
    }

    /// The declared fields of a valid value have names of their own and
    /// well-formed values.
    pub proof fn lemma_members(v: ResourceUpdatedParamsView)
        requires
            Self::valid(v),
        ensures
            members_ok(Self::members(v), Self::names()),
    {
        broadcast use group_record;

        reveal_strlit("uri");
        assert("uri"@.len() == 3);
        String::lemma_round_trip(v.uri);
    }
}

impl Wire for ResourceUpdatedParams {
    open spec fn valid(v: ResourceUpdatedParamsView) -> bool {
        &&& String::valid(v.uri)
        &&& fields_wf(v.extra)
        &&& avoids(v.extra, Self::names())
    }

    open spec fn encode(v: ResourceUpdatedParamsView) -> JsonView {
        Self::written(v)
    }

    open spec fn decode(j: JsonView) -> Result<ResourceUpdatedParamsView, SchemaError> {
        Self::read(j)
    }

    fn to_json(&self) -> (j: Json) {
        let mut out = no_members();
        write_field::<String>(&mut out, "uri", &self.uri);
        write_rest(&mut out, &self.extra);
        proof {
            broadcast use group_writer;

            reveal(ResourceUpdatedParams::written);
            lemma_object_view(out);
        }
        Json::Object(out)
    }

    fn from_json(j: &Json) -> (r: Result<ResourceUpdatedParams, SchemaError>) {
        proof {
            reveal(ResourceUpdatedParams::read);
        }
        match j {
            Json::Object(entries) => {
                proof {
                    lemma_object_view(*entries);
                }
                if repeats::<ResourceUpdatedParams>(entries) {
                    return Err(SchemaError::FieldCollision);
                }
                let uri = read_field::<String>(entries, "uri")?;
                Ok(ResourceUpdatedParams { uri, extra: rest::<ResourceUpdatedParams>(entries) })
            },
            _ => Err(SchemaError::ParamsShapeMismatch),
        }
    }

    proof fn lemma_round_trip(v: ResourceUpdatedParamsView) {
        reveal(ResourceUpdatedParams::written);
        reveal(ResourceUpdatedParams::read);
        let m = Self::members(v);
        Self::lemma_members(v);
        lemma_written_record(m, v.extra, Self::names());
        lemma_member_at(m, Self::names(), 0);
        String::lemma_round_trip(v.uri);
    }
}

impl WireSound for ResourceUpdatedParams {
    proof fn lemma_decoded_valid(j: JsonView) {
        broadcast use group_record;

        reveal(ResourceUpdatedParams::written);
        reveal(ResourceUpdatedParams::read);
        let o = j->Object_0;
        String::lemma_decoded_valid(get(o, "uri"@)->Some_0);
        lemma_without_members(o, Self::names());
    }
}

impl Layout for ResourceUpdatedParams {
    open spec fn layout(v: ResourceUpdatedParamsView) -> Members {
        Self::members(v)
    }

    open spec fn others(v: ResourceUpdatedParamsView) -> Fields {
        v.extra
    }

    proof fn lemma_layout(v: ResourceUpdatedParamsView) {
        reveal(ResourceUpdatedParams::written);
        Self::lemma_members(v);
    }
}

/// The contents of a resource: text or binary data. An object with a member
/// `text` is text; one without it and with a member `blob` is binary data.
#[derive(Debug, Clone)]
pub enum ResourceContents {
    Text(TextResourceContents),
    Blob(BlobResourceContents),
}

/// [`ResourceContents`] as specifications see it.
pub enum ResourceContentsView {
    Text(TextResourceContentsView),
    Blob(BlobResourceContentsView),
}

impl DeepView for ResourceContents {
    type V = ResourceContentsView;

    open spec fn deep_view(&self) -> ResourceContentsView {
        match self {
            ResourceContents::Text(x) => ResourceContentsView::Text(x.deep_view()),
            ResourceContents::Blob(x) => ResourceContentsView::Blob(x.deep_view()),
        }
    }
}

impl Wire for ResourceContents {
    open spec fn valid(v: ResourceContentsView) -> bool {
        match v {
            ResourceContentsView::Text(x) => TextResourceContents::valid(x),
            ResourceContentsView::Blob(x) => BlobResourceContents::valid(x),
        }
    }

    open spec fn encode(v: ResourceContentsView) -> JsonView {
        match v {
            ResourceContentsView::Text(x) => TextResourceContents::encode(x),
            ResourceContentsView::Blob(x) => BlobResourceContents::encode(x),
        }
    }

    /// The first variant whose distinguishing member is there, read as
    /// that variant; without any of them the variant is unknown.
    open spec fn decode(j: JsonView) -> Result<ResourceContentsView, SchemaError> {
        match j {
            JsonView::Object(o) => {
                if get(o, "text"@) is Some {
                    match TextResourceContents::decode(j) {
                        Ok(x) => Ok(ResourceContentsView::Text(x)),
                        Err(e) => Err(e),
                    }
                } else if get(o, "blob"@) is Some {
                    match BlobResourceContents::decode(j) {
                        Ok(x) => Ok(ResourceContentsView::Blob(x)),
                        Err(e) => Err(e),
                    }
                } else {
                    Err(SchemaError::UnknownContentVariant)
                }
            },
            _ => Err(SchemaError::UnknownContentVariant),
        }
    }

    fn to_json(&self) -> (j: Json) {
        match self {
            ResourceContents::Text(x) => x.to_json(),
            ResourceContents::Blob(x) => x.to_json(),
        }
    }

    fn from_json(j: &Json) -> (r: Result<ResourceContents, SchemaError>) {
        match j {
            Json::Object(entries) => {
                proof {
                    lemma_object_view(*entries);
                }
                if find(entries, "text").is_some() {
                    match TextResourceContents::from_json(j) {
                        Ok(x) => Ok(ResourceContents::Text(x)),
                        Err(e) => Err(e),
                    }
                } else if find(entries, "blob").is_some() {
                    match BlobResourceContents::from_json(j) {
                        Ok(x) => Ok(ResourceContents::Blob(x)),
                        Err(e) => Err(e),
                    }
                } else {
                    Err(SchemaError::UnknownContentVariant)
                }
            },
            _ => Err(SchemaError::UnknownContentVariant),
        }
    }

    proof fn lemma_round_trip(v: ResourceContentsView) {
        broadcast use group_record;

        match v {
            ResourceContentsView::Text(x) => {
                reveal_strlit("uri");
                reveal_strlit("mimeType");
                reveal_strlit("text");
                reveal_strlit("blob");
                assert("uri"@.len() == 3);
                assert("mimeType"@.len() == 8);
                assert("text"@.len() == 4);
                assert("blob"@.len() == 4);
                assert("blob"@[0] == 'b');
                assert("text"@[0] == 't');
                TextResourceContents::lemma_layout(x);
                lemma_written_record(
                    TextResourceContents::layout(x),
                    TextResourceContents::others(x),
                    TextResourceContents::names(),
                );
                lemma_member_at(TextResourceContents::layout(x), TextResourceContents::names(), 2);
                TextResourceContents::lemma_round_trip(x);
            },
            ResourceContentsView::Blob(x) => {
                reveal_strlit("uri");
                reveal_strlit("mimeType");
                reveal_strlit("blob");
                reveal_strlit("text");
                assert("uri"@.len() == 3);
                assert("mimeType"@.len() == 8);
                assert("blob"@.len() == 4);
                assert("text"@.len() == 4);
                assert("blob"@[0] == 'b');
                assert("text"@[0] == 't');
                BlobResourceContents::lemma_layout(x);
                lemma_written_record(
                    BlobResourceContents::layout(x),
                    BlobResourceContents::others(x),
                    BlobResourceContents::names(),
                );
                lemma_member_at(BlobResourceContents::layout(x), BlobResourceContents::names(), 2);
                BlobResourceContents::lemma_round_trip(x);
            },
        }
    }
}

impl WireSound for ResourceContents {
    proof fn lemma_decoded_valid(j: JsonView) {
        broadcast use group_record;

        match Self::decode(j)->Ok_0 {
            ResourceContentsView::Text(x) => {
                reveal(TextResourceContents::read);
                reveal(TextResourceContents::written);
                TextResourceContents::lemma_decoded_valid(j);
            },
            ResourceContentsView::Blob(x) => {
                reveal(BlobResourceContents::read);
                reveal(BlobResourceContents::written);
                BlobResourceContents::lemma_decoded_valid(j);
            },
        }
    }
}

} // verus!
