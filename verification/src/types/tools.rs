//! Tools: what the client can have the server do.

use vstd::prelude::*;
use crate::error::SchemaError;
use crate::json::{
    avoids, collides, fields_wf, get, lemma_object_view, lemma_without_members, same_text,
    without, Fields, Json, JsonView,
};
use crate::record::{
    field, group_record, group_writer, lemma_member_at, lemma_written_record, member, members_ok,
    no_members, opt_field, opt_member, present, read_field, read_opt_field, repeats, rest,
    valid_opt, with, write_field, write_opt_field, write_rest, JsonObject, Layout, Members,
    Record,
};
use crate::types::prompts::{PromptContent, PromptContentView};
use crate::wire::{Wire, WireSound};

verus! {

/// Hints on how a tool behaves.
#[derive(Debug, Clone)]
pub struct ToolAnnotations {
    pub title: Option<String>,
    pub read_only_hint: Option<bool>,
    pub destructive_hint: Option<bool>,
    pub idempotent_hint: Option<bool>,
    pub open_world_hint: Option<bool>,
}

/// [`ToolAnnotations`] as specifications see it.
pub struct ToolAnnotationsView {
    pub title: Option<Seq<char>>,
    pub read_only_hint: Option<bool>,
    pub destructive_hint: Option<bool>,
    pub idempotent_hint: Option<bool>,
    pub open_world_hint: Option<bool>,
}

impl DeepView for ToolAnnotations {
    type V = ToolAnnotationsView;

    open spec fn deep_view(&self) -> ToolAnnotationsView {
        ToolAnnotationsView {
            title: self.title.deep_view(),
            read_only_hint: self.read_only_hint.deep_view(),
            destructive_hint: self.destructive_hint.deep_view(),
            idempotent_hint: self.idempotent_hint.deep_view(),
            open_world_hint: self.open_world_hint.deep_view(),
        }
    }
}

impl Record for ToolAnnotations {
    open spec fn names() -> Set<Seq<char>> {
        set!["title"@, "readOnlyHint"@, "destructiveHint"@, "idempotentHint"@, "openWorldHint"@]
    }

    fn declares(key: &str) -> (b: bool) {
        same_text(key, "title")
            || same_text(key, "readOnlyHint")
            || same_text(key, "destructiveHint")
            || same_text(key, "idempotentHint")
            || same_text(key, "openWorldHint")
    }
}

impl ToolAnnotations {
    /// The declared fields of `v`, each with what is written for it.
    pub open spec fn members(v: ToolAnnotationsView) -> Members {
        Seq::empty()
            .push(opt_member::<String>("title"@, v.title))
            .push(opt_member::<bool>("readOnlyHint"@, v.read_only_hint))
            .push(opt_member::<bool>("destructiveHint"@, v.destructive_hint))
            .push(opt_member::<bool>("idempotentHint"@, v.idempotent_hint))
            .push(opt_member::<bool>("openWorldHint"@, v.open_world_hint))
    }

    /// The object that stands for `v`: its declared fields.
    #[verifier::opaque]
    pub open spec fn written(v: ToolAnnotationsView) -> JsonView {
        JsonView::Object(present(Self::members(v)))
    }

    /// What `j` is read as: an object in which no declared name occurs twice
    /// and every declared field reads; the first field that does not read
    /// gives the error. Other members are passed over.
    #[verifier::opaque]
    pub open spec fn read(j: JsonView) -> Result<ToolAnnotationsView, SchemaError> {
        match j {
            JsonView::Object(o) => {
                let title = opt_field::<String>(o, "title"@);
                let read_only_hint = opt_field::<bool>(o, "readOnlyHint"@);
                let destructive_hint = opt_field::<bool>(o, "destructiveHint"@);
                let idempotent_hint = opt_field::<bool>(o, "idempotentHint"@);
                let open_world_hint = opt_field::<bool>(o, "openWorldHint"@);
                if collides(o, Self::names()) {
                    Err(SchemaError::FieldCollision)
                } else if title is Err {
                    Err(title->Err_0)
                } else if read_only_hint is Err {
                    Err(read_only_hint->Err_0)
                } else if destructive_hint is Err {
                    Err(destructive_hint->Err_0)
                } else if idempotent_hint is Err {
                    Err(idempotent_hint->Err_0)
                } else if open_world_hint is Err {
                    Err(open_world_hint->Err_0)
                } else {
                    Ok(
                        ToolAnnotationsView {
                            title: title->Ok_0,
                            read_only_hint: read_only_hint->Ok_0,
                            destructive_hint: destructive_hint->Ok_0,
                            idempotent_hint: idempotent_hint->Ok_0,
                            open_world_hint: open_world_hint->Ok_0,
                        },
                    )
                }
            },
            _ => Err(SchemaError::ParamsShapeMismatch),
        }
    }

    /// The declared fields of a valid value have names of their own and
    /// well-formed values.
    pub proof fn lemma_members(v: ToolAnnotationsView)
        requires
            Self::valid(v),
        ensures
            members_ok(Self::members(v), Self::names()),
    {
        broadcast use group_record;

        reveal_strlit("title");
        reveal_strlit("readOnlyHint");
        reveal_strlit("destructiveHint");
        reveal_strlit("idempotentHint");
        reveal_strlit("openWorldHint");
        assert("title"@.len() == 5);
        assert("readOnlyHint"@.len() == 12);
        assert("destructiveHint"@.len() == 15);
        assert("idempotentHint"@.len() == 14);
        assert("openWorldHint"@.len() == 13);
        if v.title is Some {
            String::lemma_round_trip(v.title->Some_0);
        }
        if v.read_only_hint is Some {
            bool::lemma_round_trip(v.read_only_hint->Some_0);
        }
        if v.destructive_hint is Some {
            bool::lemma_round_trip(v.destructive_hint->Some_0);
        }
        if v.idempotent_hint is Some {
            bool::lemma_round_trip(v.idempotent_hint->Some_0);
        }
        if v.open_world_hint is Some {
            bool::lemma_round_trip(v.open_world_hint->Some_0);
        }
    }
}

impl Wire for ToolAnnotations {
    open spec fn valid(v: ToolAnnotationsView) -> bool {
        &&& valid_opt::<String>(v.title)
        &&& valid_opt::<bool>(v.read_only_hint)
        &&& valid_opt::<bool>(v.destructive_hint)
        &&& valid_opt::<bool>(v.idempotent_hint)
        &&& valid_opt::<bool>(v.open_world_hint)
    }

    open spec fn encode(v: ToolAnnotationsView) -> JsonView {
        Self::written(v)
    }

    open spec fn decode(j: JsonView) -> Result<ToolAnnotationsView, SchemaError> {
        Self::read(j)
    }

    fn to_json(&self) -> (j: Json) {
        let mut out = no_members();
        write_opt_field::<String>(&mut out, "title", &self.title);
        write_opt_field::<bool>(&mut out, "readOnlyHint", &self.read_only_hint);
        write_opt_field::<bool>(&mut out, "destructiveHint", &self.destructive_hint);
        write_opt_field::<bool>(&mut out, "idempotentHint", &self.idempotent_hint);
        write_opt_field::<bool>(&mut out, "openWorldHint", &self.open_world_hint);
        proof {
            broadcast use group_writer;

            reveal(ToolAnnotations::written);
            lemma_object_view(out);
        }
        Json::Object(out)
    }

    fn from_json(j: &Json) -> (r: Result<ToolAnnotations, SchemaError>) {
        proof {
            reveal(ToolAnnotations::read);
        }
        match j {
            Json::Object(entries) => {
                proof {
                    lemma_object_view(*entries);
                }
                if repeats::<ToolAnnotations>(entries) {
                    return Err(SchemaError::FieldCollision);
                }
                let title = read_opt_field::<String>(entries, "title")?;
                let read_only_hint = read_opt_field::<bool>(entries, "readOnlyHint")?;
                let destructive_hint = read_opt_field::<bool>(entries, "destructiveHint")?;
                let idempotent_hint = read_opt_field::<bool>(entries, "idempotentHint")?;
                let open_world_hint = read_opt_field::<bool>(entries, "openWorldHint")?;
                Ok(
                    ToolAnnotations {
                        title,
                        read_only_hint,
                        destructive_hint,
                        idempotent_hint,
                        open_world_hint,
                    },
                )
            },
            _ => Err(SchemaError::ParamsShapeMismatch),
        }
    }

    proof fn lemma_round_trip(v: ToolAnnotationsView) {
        reveal(ToolAnnotations::written);
        reveal(ToolAnnotations::read);
        let m = Self::members(v);
        Self::lemma_members(v);
        lemma_written_record(m, Seq::empty(), Self::names());
        lemma_member_at(m, Self::names(), 0);
        lemma_member_at(m, Self::names(), 1);
        lemma_member_at(m, Self::names(), 2);
        lemma_member_at(m, Self::names(), 3);
        lemma_member_at(m, Self::names(), 4);
        if v.title is Some {
            String::lemma_round_trip(v.title->Some_0);
        }
        if v.read_only_hint is Some {
            bool::lemma_round_trip(v.read_only_hint->Some_0);
        }
        if v.destructive_hint is Some {
            bool::lemma_round_trip(v.destructive_hint->Some_0);
        }
        if v.idempotent_hint is Some {
            bool::lemma_round_trip(v.idempotent_hint->Some_0);
        }
        if v.open_world_hint is Some {
            bool::lemma_round_trip(v.open_world_hint->Some_0);
        }
        assert(present(m) + Seq::empty() =~= present(m));
    }
}

impl WireSound for ToolAnnotations {
    proof fn lemma_decoded_valid(j: JsonView) {
        broadcast use group_record;

        reveal(ToolAnnotations::written);
        reveal(ToolAnnotations::read);
        let o = j->Object_0;
        if get(o, "title"@) is Some && get(o, "title"@) != Some(JsonView::Null) {
            String::lemma_decoded_valid(get(o, "title"@)->Some_0);
        }
        if get(o, "readOnlyHint"@) is Some && get(o, "readOnlyHint"@) != Some(JsonView::Null) {
            bool::lemma_decoded_valid(get(o, "readOnlyHint"@)->Some_0);
        }
        if get(o, "destructiveHint"@) is Some
            && get(o, "destructiveHint"@) != Some(JsonView::Null) {
            bool::lemma_decoded_valid(get(o, "destructiveHint"@)->Some_0);
        }
        if get(o, "idempotentHint"@) is Some && get(o, "idempotentHint"@) != Some(JsonView::Null) {
            bool::lemma_decoded_valid(get(o, "idempotentHint"@)->Some_0);
        }
        if get(o, "openWorldHint"@) is Some && get(o, "openWorldHint"@) != Some(JsonView::Null) {
            bool::lemma_decoded_valid(get(o, "openWorldHint"@)->Some_0);
        }
    }
}

impl Layout for ToolAnnotations {
    open spec fn layout(v: ToolAnnotationsView) -> Members {
        Self::members(v)
    }

    open spec fn others(v: ToolAnnotationsView) -> Fields {
        Seq::empty()
    }

    proof fn lemma_layout(v: ToolAnnotationsView) {
        reveal(ToolAnnotations::written);
        Self::lemma_members(v);
        assert(Self::layout(v) == Self::members(v));
        assert(Self::others(v) == Seq::<(Seq<char>, JsonView)>::empty());
        assert(fields_wf(Seq::<(Seq<char>, JsonView)>::empty()));
        assert(present(Self::members(v)) + Seq::empty() =~= present(Self::members(v)));
    }
}

/// The schema of a tool's input.
#[derive(Debug, Clone)]
pub struct ToolInputSchema {
    pub type_: String,
    pub properties: Option<JsonObject>,
    pub required: Option<Vec<String>>,
}

/// [`ToolInputSchema`] as specifications see it.
pub struct ToolInputSchemaView {
    pub type_: Seq<char>,
    pub properties: Option<Fields>,
    pub required: Option<Seq<Seq<char>>>,
}

impl DeepView for ToolInputSchema {
    type V = ToolInputSchemaView;

    open spec fn deep_view(&self) -> ToolInputSchemaView {
        ToolInputSchemaView {
            type_: self.type_.deep_view(),
            properties: self.properties.deep_view(),
            required: self.required.deep_view(),
        }
    }
}

impl Record for ToolInputSchema {
    open spec fn names() -> Set<Seq<char>> {
        set!["type"@, "properties"@, "required"@]
    }

    fn declares(key: &str) -> (b: bool) {
        same_text(key, "type") || same_text(key, "properties") || same_text(key, "required")
    }
}

impl ToolInputSchema {
    /// The declared fields of `v`, each with what is written for it.
    pub open spec fn members(v: ToolInputSchemaView) -> Members {
        Seq::empty()
            .push(member::<String>("type"@, v.type_))
            .push(opt_member::<JsonObject>("properties"@, v.properties))
            .push(opt_member::<Vec<String>>("required"@, v.required))
    }

    /// The object that stands for `v`: its declared fields.
    #[verifier::opaque]
    pub open spec fn written(v: ToolInputSchemaView) -> JsonView {
        JsonView::Object(present(Self::members(v)))
    }

    /// What `j` is read as: an object in which no declared name occurs twice
    /// and every declared field reads; the first field that does not read
    /// gives the error. Other members are passed over.
    #[verifier::opaque]
    pub open spec fn read(j: JsonView) -> Result<ToolInputSchemaView, SchemaError> {
        match j {
            JsonView::Object(o) => {
                let type_ = field::<String>(o, "type"@);
                let properties = opt_field::<JsonObject>(o, "properties"@);
                let required = opt_field::<Vec<String>>(o, "required"@);
                if collides(o, Self::names()) {
                    Err(SchemaError::FieldCollision)
                } else if type_ is Err {
                    Err(type_->Err_0)
                } else if properties is Err {
                    Err(properties->Err_0)
                } else if required is Err {
                    Err(required->Err_0)
                } else {
                    Ok(
                        ToolInputSchemaView {
                            type_: type_->Ok_0,
                            properties: properties->Ok_0,
                            required: required->Ok_0,
                        },
                    )
                }
            },
            _ => Err(SchemaError::ParamsShapeMismatch),
        }
    }

    /// The declared fields of a valid value have names of their own and
    /// well-formed values.
    pub proof fn lemma_members(v: ToolInputSchemaView)
        requires
            Self::valid(v),
        ensures
            members_ok(Self::members(v), Self::names()),
    {
        broadcast use group_record;

        reveal_strlit("type");
        reveal_strlit("properties");
        reveal_strlit("required");
        assert("type"@.len() == 4);
        assert("properties"@.len() == 10);
        assert("required"@.len() == 8);
        String::lemma_round_trip(v.type_);
        if v.properties is Some {
            JsonObject::lemma_round_trip(v.properties->Some_0);
        }
        if v.required is Some {
            Vec::<String>::lemma_round_trip(v.required->Some_0);
        }
    }
}

impl Wire for ToolInputSchema {
    open spec fn valid(v: ToolInputSchemaView) -> bool {
        &&& String::valid(v.type_)
        &&& valid_opt::<JsonObject>(v.properties)
        &&& valid_opt::<Vec<String>>(v.required)
    }

    open spec fn encode(v: ToolInputSchemaView) -> JsonView {
        Self::written(v)
    }

    open spec fn decode(j: JsonView) -> Result<ToolInputSchemaView, SchemaError> {
        Self::read(j)
    }

    fn to_json(&self) -> (j: Json) {
        let mut out = no_members();
        write_field::<String>(&mut out, "type", &self.type_);
        write_opt_field::<JsonObject>(&mut out, "properties", &self.properties);
        write_opt_field::<Vec<String>>(&mut out, "required", &self.required);
        proof {
            broadcast use group_writer;

            reveal(ToolInputSchema::written);
            lemma_object_view(out);
        }
        Json::Object(out)
    }

    fn from_json(j: &Json) -> (r: Result<ToolInputSchema, SchemaError>) {
        proof {
            reveal(ToolInputSchema::read);
        }
        match j {
            Json::Object(entries) => {
                proof {
                    lemma_object_view(*entries);
                }
                if repeats::<ToolInputSchema>(entries) {
                    return Err(SchemaError::FieldCollision);
                }
                let type_ = read_field::<String>(entries, "type")?;
                let properties = read_opt_field::<JsonObject>(entries, "properties")?;
                let required = read_opt_field::<Vec<String>>(entries, "required")?;
                Ok(ToolInputSchema { type_, properties, required })
            },
            _ => Err(SchemaError::ParamsShapeMismatch),
        }
    }

    proof fn lemma_round_trip(v: ToolInputSchemaView) {
        reveal(ToolInputSchema::written);
        reveal(ToolInputSchema::read);
        let m = Self::members(v);
        Self::lemma_members(v);
        lemma_written_record(m, Seq::empty(), Self::names());
        lemma_member_at(m, Self::names(), 0);
        lemma_member_at(m, Self::names(), 1);
        lemma_member_at(m, Self::names(), 2);
        String::lemma_round_trip(v.type_);
        if v.properties is Some {
            JsonObject::lemma_round_trip(v.properties->Some_0);
        }
        if v.required is Some {
            Vec::<String>::lemma_round_trip(v.required->Some_0);
        }
        assert(present(m) + Seq::empty() =~= present(m));
    }
}

impl WireSound for ToolInputSchema {
    proof fn lemma_decoded_valid(j: JsonView) {
        broadcast use group_record;

        reveal(ToolInputSchema::written);
        reveal(ToolInputSchema::read);
        let o = j->Object_0;
        String::lemma_decoded_valid(get(o, "type"@)->Some_0);
        if get(o, "properties"@) is Some && get(o, "properties"@) != Some(JsonView::Null) {
            JsonObject::lemma_decoded_valid(get(o, "properties"@)->Some_0);
        }
        if get(o, "required"@) is Some && get(o, "required"@) != Some(JsonView::Null) {
            Vec::<String>::lemma_decoded_valid(get(o, "required"@)->Some_0);
        }
    }
}

impl Layout for ToolInputSchema {
    open spec fn layout(v: ToolInputSchemaView) -> Members {
        Self::members(v)
    }

    open spec fn others(v: ToolInputSchemaView) -> Fields {
        Seq::empty()
    }

    proof fn lemma_layout(v: ToolInputSchemaView) {
        reveal(ToolInputSchema::written);
        Self::lemma_members(v);
        assert(Self::layout(v) == Self::members(v));
        assert(Self::others(v) == Seq::<(Seq<char>, JsonView)>::empty());
        assert(fields_wf(Seq::<(Seq<char>, JsonView)>::empty()));
        assert(present(Self::members(v)) + Seq::empty() =~= present(Self::members(v)));
    }
}

/// A tool that the client can call.
#[derive(Debug, Clone)]
pub struct Tool {
    pub name: String,
    pub title: Option<String>,
    pub description: Option<String>,
    pub input_schema: ToolInputSchema,
    pub output_schema: Option<Json>,
    pub annotations: Option<ToolAnnotations>,
    pub extra: JsonObject,
}

/// [`Tool`] as specifications see it.
pub struct ToolView {
    pub name: Seq<char>,
    pub title: Option<Seq<char>>,
    pub description: Option<Seq<char>>,
    pub input_schema: ToolInputSchemaView,
    pub output_schema: Option<JsonView>,
    pub annotations: Option<ToolAnnotationsView>,
    pub extra: Fields,
}

impl DeepView for Tool {
    type V = ToolView;

    open spec fn deep_view(&self) -> ToolView {
        ToolView {
            name: self.name.deep_view(),
            title: self.title.deep_view(),
            description: self.description.deep_view(),
            input_schema: self.input_schema.deep_view(),
            output_schema: self.output_schema.deep_view(),
            annotations: self.annotations.deep_view(),
            extra: self.extra.deep_view(),
        }
    }
}

impl Record for Tool {
    open spec fn names() -> Set<Seq<char>> {
        set!["name"@, "title"@, "description"@, "inputSchema"@, "outputSchema"@, "annotations"@]
    }

    fn declares(key: &str) -> (b: bool) {
        same_text(key, "name")
            || same_text(key, "title")
            || same_text(key, "description")
            || same_text(key, "inputSchema")
            || same_text(key, "outputSchema")
            || same_text(key, "annotations")
    }
}

impl Tool {
    /// The declared fields of `v`, each with what is written for it.
    pub open spec fn members(v: ToolView) -> Members {
        Seq::empty()
            .push(member::<String>("name"@, v.name))
            .push(opt_member::<String>("title"@, v.title))
            .push(opt_member::<String>("description"@, v.description))
            .push(member::<ToolInputSchema>("inputSchema"@, v.input_schema))
            .push(opt_member::<Json>("outputSchema"@, v.output_schema))
            .push(opt_member::<ToolAnnotations>("annotations"@, v.annotations))
    }

    /// The object that stands for `v`: its declared fields, then its other
    /// members.
    #[verifier::opaque]
    pub open spec fn written(v: ToolView) -> JsonView {
        JsonView::Object(present(Self::members(v)) + v.extra)
    }

    /// What `j` is read as: an object in which no declared name occurs twice
    /// and every declared field reads; the first field that does not read
    /// gives the error. The other members are kept.
    #[verifier::opaque]
    pub open spec fn read(j: JsonView) -> Result<ToolView, SchemaError> {
        match j {
            JsonView::Object(o) => {
                let name = field::<String>(o, "name"@);
                let title = opt_field::<String>(o, "title"@);
                let description = opt_field::<String>(o, "description"@);
                let input_schema = field::<ToolInputSchema>(o, "inputSchema"@);
                let output_schema = opt_field::<Json>(o, "outputSchema"@);
                let annotations = opt_field::<ToolAnnotations>(o, "annotations"@);
                if collides(o, Self::names()) {
                    Err(SchemaError::FieldCollision)
                } else if name is Err {
                    Err(name->Err_0)
                } else if title is Err {
                    Err(title->Err_0)
                } else if description is Err {
                    Err(description->Err_0)
                } else if input_schema is Err {
                    Err(input_schema->Err_0)
                } else if output_schema is Err {
                    Err(output_schema->Err_0)
                } else if annotations is Err {
                    Err(annotations->Err_0)
                } else {
                    Ok(
                        ToolView {
                            name: name->Ok_0,
                            title: title->Ok_0,
                            description: description->Ok_0,
                            input_schema: input_schema->Ok_0,
                            output_schema: output_schema->Ok_0,
                            annotations: annotations->Ok_0,
                            extra: without(o, Self::names()),
                        },
                    )
                }
            },
            _ => Err(SchemaError::ParamsShapeMismatch),
        }
    }

    /// The declared fields of a valid value have names of their own and
    /// well-formed values.
    pub proof fn lemma_members(v: ToolView)
        requires
            Self::valid(v),
        ensures
            members_ok(Self::members(v), Self::names()),
    {
        broadcast use group_record;

        reveal_strlit("name");
        reveal_strlit("title");
        reveal_strlit("description");
        reveal_strlit("inputSchema");
        reveal_strlit("outputSchema");
        reveal_strlit("annotations");
        assert("name"@.len() == 4);
        assert("title"@.len() == 5);
        assert("description"@.len() == 11);
        assert("inputSchema"@.len() == 11);
        assert("outputSchema"@.len() == 12);
        assert("annotations"@.len() == 11);
        assert("description"@[0] == 'd');
        assert("inputSchema"@[0] == 'i');
        assert("annotations"@[0] == 'a');
        String::lemma_round_trip(v.name);
        if v.title is Some {
            String::lemma_round_trip(v.title->Some_0);
        }
        if v.description is Some {
            String::lemma_round_trip(v.description->Some_0);
        }
        ToolInputSchema::lemma_round_trip(v.input_schema);
        if v.output_schema is Some {
            Json::lemma_round_trip(v.output_schema->Some_0);
        }
        if v.annotations is Some {
            ToolAnnotations::lemma_round_trip(v.annotations->Some_0);
        }
    }
}

impl Wire for Tool {
    open spec fn valid(v: ToolView) -> bool {
        &&& String::valid(v.name)
        &&& valid_opt::<String>(v.title)
        &&& valid_opt::<String>(v.description)
        &&& ToolInputSchema::valid(v.input_schema)
        &&& valid_opt::<Json>(v.output_schema)
        &&& valid_opt::<ToolAnnotations>(v.annotations)
        &&& fields_wf(v.extra)
        &&& avoids(v.extra, Self::names())
    }

    open spec fn encode(v: ToolView) -> JsonView {
        Self::written(v)
    }

    open spec fn decode(j: JsonView) -> Result<ToolView, SchemaError> {
        Self::read(j)
    }

    fn to_json(&self) -> (j: Json) {
        let mut out = no_members();
        write_field::<String>(&mut out, "name", &self.name);
        write_opt_field::<String>(&mut out, "title", &self.title);
        write_opt_field::<String>(&mut out, "description", &self.description);
        write_field::<ToolInputSchema>(&mut out, "inputSchema", &self.input_schema);
        write_opt_field::<Json>(&mut out, "outputSchema", &self.output_schema);
        write_opt_field::<ToolAnnotations>(&mut out, "annotations", &self.annotations);
        write_rest(&mut out, &self.extra);
        proof {
            broadcast use group_writer;

            reveal(Tool::written);
            lemma_object_view(out);
        }
        Json::Object(out)
    }

    fn from_json(j: &Json) -> (r: Result<Tool, SchemaError>) {
        proof {
            reveal(Tool::read);
        }
        match j {
            Json::Object(entries) => {
                proof {
                    lemma_object_view(*entries);
                }
                if repeats::<Tool>(entries) {
                    return Err(SchemaError::FieldCollision);
                }
                let name = read_field::<String>(entries, "name")?;
                let title = read_opt_field::<String>(entries, "title")?;
                let description = read_opt_field::<String>(entries, "description")?;
                let input_schema = read_field::<ToolInputSchema>(entries, "inputSchema")?;
                let output_schema = read_opt_field::<Json>(entries, "outputSchema")?;
                let annotations = read_opt_field::<ToolAnnotations>(entries, "annotations")?;
                Ok(
                    Tool {
                        name,
                        title,
                        description,
                        input_schema,
                        output_schema,
                        annotations,
                        extra: rest::<Tool>(entries),
                    },
                )
            },
            _ => Err(SchemaError::ParamsShapeMismatch),
        }
    }

    proof fn lemma_round_trip(v: ToolView) {
        reveal(Tool::written);
        reveal(Tool::read);
        let m = Self::members(v);
        Self::lemma_members(v);
        lemma_written_record(m, v.extra, Self::names());
        lemma_member_at(m, Self::names(), 0);
        lemma_member_at(m, Self::names(), 1);
        lemma_member_at(m, Self::names(), 2);
        lemma_member_at(m, Self::names(), 3);
        lemma_member_at(m, Self::names(), 4);
        lemma_member_at(m, Self::names(), 5);
        String::lemma_round_trip(v.name);
        if v.title is Some {
            String::lemma_round_trip(v.title->Some_0);
        }
        if v.description is Some {
            String::lemma_round_trip(v.description->Some_0);
        }
        ToolInputSchema::lemma_round_trip(v.input_schema);
        if v.output_schema is Some {
            Json::lemma_round_trip(v.output_schema->Some_0);
        }
        if v.annotations is Some {
            ToolAnnotations::lemma_round_trip(v.annotations->Some_0);
        }
    }
}

impl WireSound for Tool {
    proof fn lemma_decoded_valid(j: JsonView) {
        broadcast use group_record;

        reveal(Tool::written);
        reveal(Tool::read);
        let o = j->Object_0;
        String::lemma_decoded_valid(get(o, "name"@)->Some_0);
        if get(o, "title"@) is Some && get(o, "title"@) != Some(JsonView::Null) {
            String::lemma_decoded_valid(get(o, "title"@)->Some_0);
        }
        if get(o, "description"@) is Some && get(o, "description"@) != Some(JsonView::Null) {
            String::lemma_decoded_valid(get(o, "description"@)->Some_0);
        }
        ToolInputSchema::lemma_decoded_valid(get(o, "inputSchema"@)->Some_0);
        if get(o, "outputSchema"@) is Some && get(o, "outputSchema"@) != Some(JsonView::Null) {
            Json::lemma_decoded_valid(get(o, "outputSchema"@)->Some_0);
        }
        if get(o, "annotations"@) is Some && get(o, "annotations"@) != Some(JsonView::Null) {
            ToolAnnotations::lemma_decoded_valid(get(o, "annotations"@)->Some_0);
        }
        lemma_without_members(o, Self::names());
    }
}

impl Layout for Tool {
    open spec fn layout(v: ToolView) -> Members {
        Self::members(v)
    }

    open spec fn others(v: ToolView) -> Fields {
        v.extra
    }

    proof fn lemma_layout(v: ToolView) {
        reveal(Tool::written);
        Self::lemma_members(v);
    }
}

/// The parameters of `tools/call`.
#[derive(Debug, Clone)]
pub struct CallToolParams {
    pub name: String,
    pub arguments: Option<JsonObject>,
    pub extra: JsonObject,
}

/// [`CallToolParams`] as specifications see it.
pub struct CallToolParamsView {
    pub name: Seq<char>,
    pub arguments: Option<Fields>,
    pub extra: Fields,
}

impl DeepView for CallToolParams {
    type V = CallToolParamsView;

    open spec fn deep_view(&self) -> CallToolParamsView {
        CallToolParamsView {
            name: self.name.deep_view(),
            arguments: self.arguments.deep_view(),
            extra: self.extra.deep_view(),
        }
    }
}

impl Record for CallToolParams {
    open spec fn names() -> Set<Seq<char>> {
        set!["name"@, "arguments"@]
    }

    fn declares(key: &str) -> (b: bool) {
        same_text(key, "name") || same_text(key, "arguments")
    }
}

impl CallToolParams {
    /// The declared fields of `v`, each with what is written for it.
    pub open spec fn members(v: CallToolParamsView) -> Members {
        Seq::empty()
            .push(member::<String>("name"@, v.name))
            .push(opt_member::<JsonObject>("arguments"@, v.arguments))
    }

    /// The object that stands for `v`: its declared fields, then its other
    /// members.
    #[verifier::opaque]
    pub open spec fn written(v: CallToolParamsView) -> JsonView {
        JsonView::Object(present(Self::members(v)) + v.extra)
    }

    /// What `j` is read as: an object in which no declared name occurs twice
    /// and every declared field reads; the first field that does not read
    /// gives the error. The other members are kept.
    #[verifier::opaque]
    pub open spec fn read(j: JsonView) -> Result<CallToolParamsView, SchemaError> {
        match j {
            JsonView::Object(o) => {
                let name = field::<String>(o, "name"@);
                let arguments = opt_field::<JsonObject>(o, "arguments"@);
                if collides(o, Self::names()) {
                    Err(SchemaError::FieldCollision)
                } else if name is Err {
                    Err(name->Err_0)
                } else if arguments is Err {
                    Err(arguments->Err_0)
                } else {
                    Ok(
                        CallToolParamsView {
                            name: name->Ok_0,
                            arguments: arguments->Ok_0,
                            extra: without(o, Self::names()),
                        },
                    )
                }
            },
            _ => Err(SchemaError::ParamsShapeMismatch),
        }
    }

    /// The declared fields of a valid value have names of their own and
    /// well-formed values.
    pub proof fn lemma_members(v: CallToolParamsView)
        requires
            Self::valid(v),
        ensures
            members_ok(Self::members(v), Self::names()),
    {
        broadcast use group_record;

        reveal_strlit("name");
        reveal_strlit("arguments");
        assert("name"@.len() == 4);
        assert("arguments"@.len() == 9);
        String::lemma_round_trip(v.name);
        if v.arguments is Some {
            JsonObject::lemma_round_trip(v.arguments->Some_0);
        }
    }
}

impl Wire for CallToolParams {
    open spec fn valid(v: CallToolParamsView) -> bool {
        &&& String::valid(v.name)
        &&& valid_opt::<JsonObject>(v.arguments)
        &&& fields_wf(v.extra)
        &&& avoids(v.extra, Self::names())
    }

    open spec fn encode(v: CallToolParamsView) -> JsonView {
        Self::written(v)
    }

    open spec fn decode(j: JsonView) -> Result<CallToolParamsView, SchemaError> {
        Self::read(j)
    }

    fn to_json(&self) -> (j: Json) {
        let mut out = no_members();
        write_field::<String>(&mut out, "name", &self.name);
        write_opt_field::<JsonObject>(&mut out, "arguments", &self.arguments);
        write_rest(&mut out, &self.extra);
        proof {
            broadcast use group_writer;

            reveal(CallToolParams::written);
            lemma_object_view(out);
        }
        Json::Object(out)
    }

    fn from_json(j: &Json) -> (r: Result<CallToolParams, SchemaError>) {
        proof {
            reveal(CallToolParams::read);
        }
        match j {
            Json::Object(entries) => {
                proof {
                    lemma_object_view(*entries);
                }
                if repeats::<CallToolParams>(entries) {
                    return Err(SchemaError::FieldCollision);
                }
                let name = read_field::<String>(entries, "name")?;
                let arguments = read_opt_field::<JsonObject>(entries, "arguments")?;
                Ok(CallToolParams { name, arguments, extra: rest::<CallToolParams>(entries) })
            },
            _ => Err(SchemaError::ParamsShapeMismatch),
        }
    }

    proof fn lemma_round_trip(v: CallToolParamsView) {
        reveal(CallToolParams::written);
        reveal(CallToolParams::read);
        let m = Self::members(v);
        Self::lemma_members(v);
        lemma_written_record(m, v.extra, Self::names());
        lemma_member_at(m, Self::names(), 0);
        lemma_member_at(m, Self::names(), 1);
        String::lemma_round_trip(v.name);
        if v.arguments is Some {
            JsonObject::lemma_round_trip(v.arguments->Some_0);
        }
    }
}

impl WireSound for CallToolParams {
    proof fn lemma_decoded_valid(j: JsonView) {
        broadcast use group_record;

        reveal(CallToolParams::written);
        reveal(CallToolParams::read);
        let o = j->Object_0;
        String::lemma_decoded_valid(get(o, "name"@)->Some_0);
        if get(o, "arguments"@) is Some && get(o, "arguments"@) != Some(JsonView::Null) {
            JsonObject::lemma_decoded_valid(get(o, "arguments"@)->Some_0);
        }
        lemma_without_members(o, Self::names());
    }
}

impl Layout for CallToolParams {
    open spec fn layout(v: CallToolParamsView) -> Members {
        Self::members(v)
    }

    open spec fn others(v: CallToolParamsView) -> Fields {
        v.extra
    }

    proof fn lemma_layout(v: CallToolParamsView) {
        reveal(CallToolParams::written);
        Self::lemma_members(v);
    }
}

/// The answer to `tools/call`.
#[derive(Debug, Clone)]
pub struct CallToolResult {
    pub meta: Option<JsonObject>,
    pub content: Vec<PromptContent>,
    pub structured_content: Option<Json>,
    pub is_error: Option<bool>,
    pub extra: JsonObject,
}

/// [`CallToolResult`] as specifications see it.
pub struct CallToolResultView {
    pub meta: Option<Fields>,
    pub content: Seq<PromptContentView>,
    pub structured_content: Option<JsonView>,
    pub is_error: Option<bool>,
    pub extra: Fields,
}

impl DeepView for CallToolResult {
    type V = CallToolResultView;

    open spec fn deep_view(&self) -> CallToolResultView {
        CallToolResultView {
            meta: self.meta.deep_view(),
            content: self.content.deep_view(),
            structured_content: self.structured_content.deep_view(),
            is_error: self.is_error.deep_view(),
            extra: self.extra.deep_view(),
        }
    }
}

impl Record for CallToolResult {
    open spec fn names() -> Set<Seq<char>> {
        set!["_meta"@, "content"@, "structuredContent"@, "isError"@]
    }

    fn declares(key: &str) -> (b: bool) {
        same_text(key, "_meta")
            || same_text(key, "content")
            || same_text(key, "structuredContent")
            || same_text(key, "isError")
    }
}

impl CallToolResult {
    /// The declared fields of `v`, each with what is written for it.
    pub open spec fn members(v: CallToolResultView) -> Members {
        Seq::empty()
            .push(opt_member::<JsonObject>("_meta"@, v.meta))
            .push(member::<Vec<PromptContent>>("content"@, v.content))
            .push(opt_member::<Json>("structuredContent"@, v.structured_content))
            .push(opt_member::<bool>("isError"@, v.is_error))
    }

    /// The object that stands for `v`: its declared fields, then its other
    /// members.
    #[verifier::opaque]
    pub open spec fn written(v: CallToolResultView) -> JsonView {
        JsonView::Object(present(Self::members(v)) + v.extra)
    }

    /// What `j` is read as: an object in which no declared name occurs twice
    /// and every declared field reads; the first field that does not read
    /// gives the error. The other members are kept.
    #[verifier::opaque]
    pub open spec fn read(j: JsonView) -> Result<CallToolResultView, SchemaError> {
        match j {
            JsonView::Object(o) => {
                let meta = opt_field::<JsonObject>(o, "_meta"@);
                let content = field::<Vec<PromptContent>>(o, "content"@);
                let structured_content = opt_field::<Json>(o, "structuredContent"@);
                let is_error = opt_field::<bool>(o, "isError"@);
                if collides(o, Self::names()) {
                    Err(SchemaError::FieldCollision)
                } else if meta is Err {
                    Err(meta->Err_0)
                } else if content is Err {
                    Err(content->Err_0)
                } else if structured_content is Err {
                    Err(structured_content->Err_0)
                } else if is_error is Err {
                    Err(is_error->Err_0)
                } else {
                    Ok(
                        CallToolResultView {
                            meta: meta->Ok_0,
                            content: content->Ok_0,
                            structured_content: structured_content->Ok_0,
                            is_error: is_error->Ok_0,
                            extra: without(o, Self::names()),
                        },
                    )
                }
            },
            _ => Err(SchemaError::ParamsShapeMismatch),
        }
    }

    /// The declared fields of a valid value have names of their own and
    /// well-formed values.
    pub proof fn lemma_members(v: CallToolResultView)
        requires
            Self::valid(v),
        ensures
            members_ok(Self::members(v), Self::names()),
    {
        broadcast use group_record;

        reveal_strlit("_meta");
        reveal_strlit("content");
        reveal_strlit("structuredContent");
        reveal_strlit("isError");
        assert("_meta"@.len() == 5);
        assert("content"@.len() == 7);
        assert("structuredContent"@.len() == 17);
        assert("isError"@.len() == 7);
        assert("content"@[0] == 'c');
        assert("isError"@[0] == 'i');
        if v.meta is Some {
            JsonObject::lemma_round_trip(v.meta->Some_0);
        }
        Vec::<PromptContent>::lemma_round_trip(v.content);
        if v.structured_content is Some {
            Json::lemma_round_trip(v.structured_content->Some_0);
        }
        if v.is_error is Some {
            bool::lemma_round_trip(v.is_error->Some_0);
        }
    }
}

impl Wire for CallToolResult {
    open spec fn valid(v: CallToolResultView) -> bool {
        &&& valid_opt::<JsonObject>(v.meta)
        &&& Vec::<PromptContent>::valid(v.content)
        &&& valid_opt::<Json>(v.structured_content)
        &&& valid_opt::<bool>(v.is_error)
        &&& fields_wf(v.extra)
        &&& avoids(v.extra, Self::names())
    }

    open spec fn encode(v: CallToolResultView) -> JsonView {
        Self::written(v)
    }

    open spec fn decode(j: JsonView) -> Result<CallToolResultView, SchemaError> {
        Self::read(j)
    }

    fn to_json(&self) -> (j: Json) {
        let mut out = no_members();
        write_opt_field::<JsonObject>(&mut out, "_meta", &self.meta);
        write_field::<Vec<PromptContent>>(&mut out, "content", &self.content);
        write_opt_field::<Json>(&mut out, "structuredContent", &self.structured_content);
        write_opt_field::<bool>(&mut out, "isError", &self.is_error);
        write_rest(&mut out, &self.extra);
        proof {
            broadcast use group_writer;

            reveal(CallToolResult::written);
            lemma_object_view(out);
        }
        Json::Object(out)
    }

    fn from_json(j: &Json) -> (r: Result<CallToolResult, SchemaError>) {
        proof {
            reveal(CallToolResult::read);
        }
        match j {
            Json::Object(entries) => {
                proof {
                    lemma_object_view(*entries);
                }
                if repeats::<CallToolResult>(entries) {
                    return Err(SchemaError::FieldCollision);
                }
                let meta = read_opt_field::<JsonObject>(entries, "_meta")?;
                let content = read_field::<Vec<PromptContent>>(entries, "content")?;
                let structured_content = read_opt_field::<Json>(entries, "structuredContent")?;
                let is_error = read_opt_field::<bool>(entries, "isError")?;
                Ok(
                    CallToolResult {
                        meta,
                        content,
                        structured_content,
                        is_error,
                        extra: rest::<CallToolResult>(entries),
                    },
                )
            },
            _ => Err(SchemaError::ParamsShapeMismatch),
        }
    }

    proof fn lemma_round_trip(v: CallToolResultView) {
        reveal(CallToolResult::written);
        reveal(CallToolResult::read);
        let m = Self::members(v);
        Self::lemma_members(v);
        lemma_written_record(m, v.extra, Self::names());
        lemma_member_at(m, Self::names(), 0);
        lemma_member_at(m, Self::names(), 1);
        lemma_member_at(m, Self::names(), 2);
        lemma_member_at(m, Self::names(), 3);
        if v.meta is Some {
            JsonObject::lemma_round_trip(v.meta->Some_0);
        }
        Vec::<PromptContent>::lemma_round_trip(v.content);
        if v.structured_content is Some {
            Json::lemma_round_trip(v.structured_content->Some_0);
        }
        if v.is_error is Some {
            bool::lemma_round_trip(v.is_error->Some_0);
        }
    }
}

impl WireSound for CallToolResult {
    proof fn lemma_decoded_valid(j: JsonView) {
        broadcast use group_record;

        reveal(CallToolResult::written);
        reveal(CallToolResult::read);
        let o = j->Object_0;
        if get(o, "_meta"@) is Some && get(o, "_meta"@) != Some(JsonView::Null) {
            JsonObject::lemma_decoded_valid(get(o, "_meta"@)->Some_0);
        }
        Vec::<PromptContent>::lemma_decoded_valid(get(o, "content"@)->Some_0);
        if get(o, "structuredContent"@) is Some
            && get(o, "structuredContent"@) != Some(JsonView::Null) {
            Json::lemma_decoded_valid(get(o, "structuredContent"@)->Some_0);
        }
        if get(o, "isError"@) is Some && get(o, "isError"@) != Some(JsonView::Null) {
            bool::lemma_decoded_valid(get(o, "isError"@)->Some_0);
        }
        lemma_without_members(o, Self::names());
    }
}

impl Layout for CallToolResult {
    open spec fn layout(v: CallToolResultView) -> Members {
        Self::members(v)
    }

    open spec fn others(v: CallToolResultView) -> Fields {
        v.extra
    }

    proof fn lemma_layout(v: CallToolResultView) {
        reveal(CallToolResult::written);
        Self::lemma_members(v);
    }
}

/// The answer to `tools/list`.
#[derive(Debug, Clone)]
pub struct ListToolsResult {
    pub meta: Option<JsonObject>,
    pub next_cursor: Option<String>,
    pub tools: Vec<Tool>,
    pub extra: JsonObject,
}

/// [`ListToolsResult`] as specifications see it.
pub struct ListToolsResultView {
    pub meta: Option<Fields>,
    pub next_cursor: Option<Seq<char>>,
    pub tools: Seq<ToolView>,
    pub extra: Fields,
}

impl DeepView for ListToolsResult {
    type V = ListToolsResultView;

    open spec fn deep_view(&self) -> ListToolsResultView {
        ListToolsResultView {
            meta: self.meta.deep_view(),
            next_cursor: self.next_cursor.deep_view(),
            tools: self.tools.deep_view(),
            extra: self.extra.deep_view(),
        }
    }
}

impl Record for ListToolsResult {
    open spec fn names() -> Set<Seq<char>> {
        set!["_meta"@, "nextCursor"@, "tools"@]
    }

    fn declares(key: &str) -> (b: bool) {
        same_text(key, "_meta") || same_text(key, "nextCursor") || same_text(key, "tools")
    }
}

impl ListToolsResult {
    /// The declared fields of `v`, each with what is written for it.
    pub open spec fn members(v: ListToolsResultView) -> Members {
        Seq::empty()
            .push(opt_member::<JsonObject>("_meta"@, v.meta))
            .push(opt_member::<String>("nextCursor"@, v.next_cursor))
            .push(member::<Vec<Tool>>("tools"@, v.tools))
    }

    /// The object that stands for `v`: its declared fields, then its other
    /// members.
    #[verifier::opaque]
    pub open spec fn written(v: ListToolsResultView) -> JsonView {
        JsonView::Object(present(Self::members(v)) + v.extra)
    }

    /// What `j` is read as: an object in which no declared name occurs twice
    /// and every declared field reads; the first field that does not read
    /// gives the error. The other members are kept.
    #[verifier::opaque]
    pub open spec fn read(j: JsonView) -> Result<ListToolsResultView, SchemaError> {
        match j {
            JsonView::Object(o) => {
                let meta = opt_field::<JsonObject>(o, "_meta"@);
                let next_cursor = opt_field::<String>(o, "nextCursor"@);
                let tools = field::<Vec<Tool>>(o, "tools"@);
                if collides(o, Self::names()) {
                    Err(SchemaError::FieldCollision)
                } else if meta is Err {
                    Err(meta->Err_0)
                } else if next_cursor is Err {
                    Err(next_cursor->Err_0)
                } else if tools is Err {
                    Err(tools->Err_0)
                } else {
                    Ok(
                        ListToolsResultView {
                            meta: meta->Ok_0,
                            next_cursor: next_cursor->Ok_0,
                            tools: tools->Ok_0,
                            extra: without(o, Self::names()),
                        },
                    )
                }
            },
            _ => Err(SchemaError::ParamsShapeMismatch),
        }
    }

    /// The declared fields of a valid value have names of their own and
    /// well-formed values.
    pub proof fn lemma_members(v: ListToolsResultView)
        requires
            Self::valid(v),
        ensures
            members_ok(Self::members(v), Self::names()),
    {
        broadcast use group_record;

        reveal_strlit("_meta");
        reveal_strlit("nextCursor");
        reveal_strlit("tools");
        assert("_meta"@.len() == 5);
        assert("nextCursor"@.len() == 10);
        assert("tools"@.len() == 5);
        assert("_meta"@[0] == '_');
        assert("tools"@[0] == 't');
        if v.meta is Some {
            JsonObject::lemma_round_trip(v.meta->Some_0);
        }
        if v.next_cursor is Some {
            String::lemma_round_trip(v.next_cursor->Some_0);
        }
        Vec::<Tool>::lemma_round_trip(v.tools);
    }
}

impl Wire for ListToolsResult {
    open spec fn valid(v: ListToolsResultView) -> bool {
        &&& valid_opt::<JsonObject>(v.meta)
        &&& valid_opt::<String>(v.next_cursor)
        &&& Vec::<Tool>::valid(v.tools)
        &&& fields_wf(v.extra)
        &&& avoids(v.extra, Self::names())
    }

    open spec fn encode(v: ListToolsResultView) -> JsonView {
        Self::written(v)
    }

    open spec fn decode(j: JsonView) -> Result<ListToolsResultView, SchemaError> {
        Self::read(j)
    }

    fn to_json(&self) -> (j: Json) {
        let mut out = no_members();
        write_opt_field::<JsonObject>(&mut out, "_meta", &self.meta);
        write_opt_field::<String>(&mut out, "nextCursor", &self.next_cursor);
        write_field::<Vec<Tool>>(&mut out, "tools", &self.tools);
        write_rest(&mut out, &self.extra);
        proof {
            broadcast use group_writer;

            reveal(ListToolsResult::written);
            lemma_object_view(out);
        }
        Json::Object(out)
    }

    fn from_json(j: &Json) -> (r: Result<ListToolsResult, SchemaError>) {
        proof {
            reveal(ListToolsResult::read);
        }
        match j {
            Json::Object(entries) => {
                proof {
                    lemma_object_view(*entries);
                }
                if repeats::<ListToolsResult>(entries) {
                    return Err(SchemaError::FieldCollision);
                }
                let meta = read_opt_field::<JsonObject>(entries, "_meta")?;
                let next_cursor = read_opt_field::<String>(entries, "nextCursor")?;
                let tools = read_field::<Vec<Tool>>(entries, "tools")?;
                Ok(
                    ListToolsResult {
                        meta,
                        next_cursor,
                        tools,
                        extra: rest::<ListToolsResult>(entries),
                    },
                )
            },
            _ => Err(SchemaError::ParamsShapeMismatch),
        }
    }

    proof fn lemma_round_trip(v: ListToolsResultView) {
        reveal(ListToolsResult::written);
        reveal(ListToolsResult::read);
        let m = Self::members(v);
        Self::lemma_members(v);
        lemma_written_record(m, v.extra, Self::names());
        lemma_member_at(m, Self::names(), 0);
        lemma_member_at(m, Self::names(), 1);
        lemma_member_at(m, Self::names(), 2);
        if v.meta is Some {
            JsonObject::lemma_round_trip(v.meta->Some_0);
        }
        if v.next_cursor is Some {
            String::lemma_round_trip(v.next_cursor->Some_0);
        }
        Vec::<Tool>::lemma_round_trip(v.tools);
    }
}

impl WireSound for ListToolsResult {
    proof fn lemma_decoded_valid(j: JsonView) {
        broadcast use group_record;

        reveal(ListToolsResult::written);
        reveal(ListToolsResult::read);
        let o = j->Object_0;
        if get(o, "_meta"@) is Some && get(o, "_meta"@) != Some(JsonView::Null) {
            JsonObject::lemma_decoded_valid(get(o, "_meta"@)->Some_0);
        }
        if get(o, "nextCursor"@) is Some && get(o, "nextCursor"@) != Some(JsonView::Null) {
            String::lemma_decoded_valid(get(o, "nextCursor"@)->Some_0);
        }
        Vec::<Tool>::lemma_decoded_valid(get(o, "tools"@)->Some_0);
        lemma_without_members(o, Self::names());
    }
}

impl Layout for ListToolsResult {
    open spec fn layout(v: ListToolsResultView) -> Members {
        Self::members(v)
    }

    open spec fn others(v: ListToolsResultView) -> Fields {
        v.extra
    }

    proof fn lemma_layout(v: ListToolsResultView) {
        reveal(ListToolsResult::written);
        Self::lemma_members(v);
    }
}

} // verus!
