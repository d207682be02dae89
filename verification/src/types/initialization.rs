//! The first exchange: who the two sides are and what they can do.

use vstd::prelude::*;
use crate::error::SchemaError;
use crate::json::{
    avoids, collides, fields_wf, get, lemma_object_view, lemma_without_members, same_text,
    without, Fields, Json, JsonView,
};
use crate::record::{
    field, group_record, group_writer, lemma_member_at, lemma_written_record, member, members_ok,
    no_members, opt_field, opt_member, present, read_field, read_opt_field, repeats, rest,
    valid_opt, with, write_field, write_opt_field, write_rest, JsonObject, Layout, Members,
    Record,
};
use crate::wire::{Wire, WireSound};

verus! {

/// The name and version of an implementation.
#[derive(Debug, Clone)]
pub struct Implementation {
    pub name: String,
    pub version: String,
    pub extra: JsonObject,
}

/// [`Implementation`] as specifications see it.
pub struct ImplementationView {
    pub name: Seq<char>,
    pub version: Seq<char>,
    pub extra: Fields,
}

impl DeepView for Implementation {
    type V = ImplementationView;

    open spec fn deep_view(&self) -> ImplementationView {
        ImplementationView {
            name: self.name.deep_view(),
            version: self.version.deep_view(),
            extra: self.extra.deep_view(),
        }
    }
}

impl Record for Implementation {
    open spec fn names() -> Set<Seq<char>> {
        set!["name"@, "version"@]
    }

    fn declares(key: &str) -> (b: bool) {
        same_text(key, "name") || same_text(key, "version")
    }
}

impl Implementation {
    /// The declared fields of `v`, each with what is written for it.
    pub open spec fn members(v: ImplementationView) -> Members {
        Seq::empty()
            .push(member::<String>("name"@, v.name))
            .push(member::<String>("version"@, v.version))
    }

    /// The object that stands for `v`: its declared fields, then its other
    /// members.
    #[verifier::opaque]
    pub open spec fn written(v: ImplementationView) -> JsonView {
        JsonView::Object(present(Self::members(v)) + v.extra)
    }

    /// What `j` is read as: an object in which no declared name occurs twice
    /// and every declared field reads; the first field that does not read
    /// gives the error. The other members are kept.
    #[verifier::opaque]
    pub open spec fn read(j: JsonView) -> Result<ImplementationView, SchemaError> {
        match j {
            JsonView::Object(o) => {
                let name = field::<String>(o, "name"@);
                let version = field::<String>(o, "version"@);
                if collides(o, Self::names()) {
                    Err(SchemaError::FieldCollision)
                } else if name is Err {
                    Err(name->Err_0)
                } else if version is Err {
                    Err(version->Err_0)
                } else {
                    Ok(
                        ImplementationView {
                            name: name->Ok_0,
                            version: version->Ok_0,
                            extra: without(o, Self::names()),
                        },
                    )
                }
            },
            _ => Err(SchemaError::ParamsShapeMismatch),
        }
    }

    /// The declared fields of a valid value have names of their own and
    /// well-formed values.
    pub proof fn lemma_members(v: ImplementationView)
        requires
            Self::valid(v),
        ensures
            members_ok(Self::members(v), Self::names()),
    {
        broadcast use group_record;

        reveal_strlit("name");
        reveal_strlit("version");
        assert("name"@.len() == 4);
        assert("version"@.len() == 7);
        String::lemma_round_trip(v.name);
        String::lemma_round_trip(v.version);
    }
}

impl Wire for Implementation {
    open spec fn valid(v: ImplementationView) -> bool {
        &&& String::valid(v.name)
        &&& String::valid(v.version)
        &&& fields_wf(v.extra)
        &&& avoids(v.extra, Self::names())
    }

    open spec fn encode(v: ImplementationView) -> JsonView {
        Self::written(v)
    }

    open spec fn decode(j: JsonView) -> Result<ImplementationView, SchemaError> {
        Self::read(j)
    }

    fn to_json(&self) -> (j: Json) {
        let mut out = no_members();
        write_field::<String>(&mut out, "name", &self.name);
        write_field::<String>(&mut out, "version", &self.version);
        write_rest(&mut out, &self.extra);
        proof {
            broadcast use group_writer;

            reveal(Implementation::written);
            lemma_object_view(out);
        }
        Json::Object(out)
    }

    fn from_json(j: &Json) -> (r: Result<Implementation, SchemaError>) {
        proof {
            reveal(Implementation::read);
        }
        match j {
            Json::Object(entries) => {
                proof {
                    lemma_object_view(*entries);
                }
                if repeats::<Implementation>(entries) {
                    return Err(SchemaError::FieldCollision);
                }
                let name = read_field::<String>(entries, "name")?;
                let version = read_field::<String>(entries, "version")?;
                Ok(Implementation { name, version, extra: rest::<Implementation>(entries) })
            },
            _ => Err(SchemaError::ParamsShapeMismatch),
        }
    }

    proof fn lemma_round_trip(v: ImplementationView) {
        reveal(Implementation::written);
        reveal(Implementation::read);
        let m = Self::members(v);
        Self::lemma_members(v);
        lemma_written_record(m, v.extra, Self::names());
        lemma_member_at(m, Self::names(), 0);
        lemma_member_at(m, Self::names(), 1);
        String::lemma_round_trip(v.name);
        String::lemma_round_trip(v.version);
    }
}

impl WireSound for Implementation {
    proof fn lemma_decoded_valid(j: JsonView) {
        broadcast use group_record;

        reveal(Implementation::written);
        reveal(Implementation::read);
        let o = j->Object_0;
        String::lemma_decoded_valid(get(o, "name"@)->Some_0);
        String::lemma_decoded_valid(get(o, "version"@)->Some_0);
        lemma_without_members(o, Self::names());
    }
}

impl Layout for Implementation {
    open spec fn layout(v: ImplementationView) -> Members {
        Self::members(v)
    }

    open spec fn others(v: ImplementationView) -> Fields {
        v.extra
    }

    proof fn lemma_layout(v: ImplementationView) {
        reveal(Implementation::written);
        Self::lemma_members(v);
    }
}

/// Whether the client announces changes to its list of roots.
#[derive(Debug, Clone)]
pub struct RootsCapability {
    pub list_changed: Option<bool>,
}

/// [`RootsCapability`] as specifications see it.
pub struct RootsCapabilityView {
    pub list_changed: Option<bool>,
}

impl DeepView for RootsCapability {
    type V = RootsCapabilityView;

    open spec fn deep_view(&self) -> RootsCapabilityView {
        RootsCapabilityView {
            list_changed: self.list_changed.deep_view(),
        }
    }
}

impl RootsCapability {
    /// The value with nothing in it.
    pub open spec fn default_view() -> RootsCapabilityView {
        RootsCapabilityView {
            list_changed: None,
        }
    }
}

impl Default for RootsCapability {
    fn default() -> (r: RootsCapability)
        ensures
            r.deep_view() == Self::default_view(),
    {
        RootsCapability {
            list_changed: None,
        }
    }
}

impl Record for RootsCapability {
    open spec fn names() -> Set<Seq<char>> {
        set!["listChanged"@]
    }

    fn declares(key: &str) -> (b: bool) {
        same_text(key, "listChanged")
    }
}

impl RootsCapability {
    /// The declared fields of `v`, each with what is written for it.
    pub open spec fn members(v: RootsCapabilityView) -> Members {
        Seq::empty()
            .push(opt_member::<bool>("listChanged"@, v.list_changed))
    }

    /// The object that stands for `v`: its declared fields.
    #[verifier::opaque]
    pub open spec fn written(v: RootsCapabilityView) -> JsonView {
        JsonView::Object(present(Self::members(v)))
    }

    /// What `j` is read as: an object in which no declared name occurs twice
    /// and every declared field reads; the first field that does not read
    /// gives the error. Other members are passed over.
    #[verifier::opaque]
    pub open spec fn read(j: JsonView) -> Result<RootsCapabilityView, SchemaError> {
        match j {
            JsonView::Object(o) => {
                let list_changed = opt_field::<bool>(o, "listChanged"@);
                if collides(o, Self::names()) {
                    Err(SchemaError::FieldCollision)
                } else if list_changed is Err {
                    Err(list_changed->Err_0)
                } else {
                    Ok(
                        RootsCapabilityView {
                            list_changed: list_changed->Ok_0,
                        },
                    )
                }
            },
            _ => Err(SchemaError::ParamsShapeMismatch),
        }
    }

    /// The declared fields of a valid value have names of their own and
    /// well-formed values.
    pub proof fn lemma_members(v: RootsCapabilityView)
        requires
            Self::valid(v),
        ensures
            members_ok(Self::members(v), Self::names()),
    {
        broadcast use group_record;

        reveal_strlit("listChanged");
        assert("listChanged"@.len() == 11);
        if v.list_changed is Some {
            bool::lemma_round_trip(v.list_changed->Some_0);
        }
    }
}

impl Wire for RootsCapability {
    open spec fn valid(v: RootsCapabilityView) -> bool {
        &&& valid_opt::<bool>(v.list_changed)
    }

    open spec fn encode(v: RootsCapabilityView) -> JsonView {
        Self::written(v)
    }

    open spec fn decode(j: JsonView) -> Result<RootsCapabilityView, SchemaError> {
        Self::read(j)
    }

    fn to_json(&self) -> (j: Json) {
        let mut out = no_members();
        write_opt_field::<bool>(&mut out, "listChanged", &self.list_changed);
        proof {
            broadcast use group_writer;

            reveal(RootsCapability::written);
            lemma_object_view(out);
        }
        Json::Object(out)
    }

    fn from_json(j: &Json) -> (r: Result<RootsCapability, SchemaError>) {
        proof {
            reveal(RootsCapability::read);
        }
        match j {
            Json::Object(entries) => {
                proof {
                    lemma_object_view(*entries);
                }
                if repeats::<RootsCapability>(entries) {
                    return Err(SchemaError::FieldCollision);
                }
                let list_changed = read_opt_field::<bool>(entries, "listChanged")?;
                Ok(RootsCapability { list_changed })
            },
            _ => Err(SchemaError::ParamsShapeMismatch),
        }
    }

    proof fn lemma_round_trip(v: RootsCapabilityView) {
        reveal(RootsCapability::written);
        reveal(RootsCapability::read);
        let m = Self::members(v);
        Self::lemma_members(v);
        lemma_written_record(m, Seq::empty(), Self::names());
        lemma_member_at(m, Self::names(), 0);
        if v.list_changed is Some {
            bool::lemma_round_trip(v.list_changed->Some_0);
        }
        assert(present(m) + Seq::empty() =~= present(m));
    }
}

impl WireSound for RootsCapability {
    proof fn lemma_decoded_valid(j: JsonView) {
        broadcast use group_record;

        reveal(RootsCapability::written);
        reveal(RootsCapability::read);
        let o = j->Object_0;
        if get(o, "listChanged"@) is Some && get(o, "listChanged"@) != Some(JsonView::Null) {
            bool::lemma_decoded_valid(get(o, "listChanged"@)->Some_0);
        }
    }
}

impl Layout for RootsCapability {
    open spec fn layout(v: RootsCapabilityView) -> Members {
        Self::members(v)
    }

    open spec fn others(v: RootsCapabilityView) -> Fields {
        Seq::empty()
    }

    proof fn lemma_layout(v: RootsCapabilityView) {
        reveal(RootsCapability::written);
        Self::lemma_members(v);
        assert(Self::layout(v) == Self::members(v));
        assert(Self::others(v) == Seq::<(Seq<char>, JsonView)>::empty());
        assert(fields_wf(Seq::<(Seq<char>, JsonView)>::empty()));
        assert(present(Self::members(v)) + Seq::empty() =~= present(Self::members(v)));
    }
}

/// Whether the server announces changes to its list of prompts.
#[derive(Debug, Clone)]
pub struct PromptsCapability {
    pub list_changed: Option<bool>,
}

/// [`PromptsCapability`] as specifications see it.
pub struct PromptsCapabilityView {
    pub list_changed: Option<bool>,
}

impl DeepView for PromptsCapability {
    type V = PromptsCapabilityView;

    open spec fn deep_view(&self) -> PromptsCapabilityView {
        PromptsCapabilityView {
            list_changed: self.list_changed.deep_view(),
        }
    }
}

impl Record for PromptsCapability {
    open spec fn names() -> Set<Seq<char>> {
        set!["listChanged"@]
    }

    fn declares(key: &str) -> (b: bool) {
        same_text(key, "listChanged")
    }
}

impl PromptsCapability {
    /// The declared fields of `v`, each with what is written for it.
    pub open spec fn members(v: PromptsCapabilityView) -> Members {
        Seq::empty()
            .push(opt_member::<bool>("listChanged"@, v.list_changed))
    }

    /// The object that stands for `v`: its declared fields.
    #[verifier::opaque]
    pub open spec fn written(v: PromptsCapabilityView) -> JsonView {
        JsonView::Object(present(Self::members(v)))
    }

    /// What `j` is read as: an object in which no declared name occurs twice
    /// and every declared field reads; the first field that does not read
    /// gives the error. Other members are passed over.
    #[verifier::opaque]
    pub open spec fn read(j: JsonView) -> Result<PromptsCapabilityView, SchemaError> {
        match j {
            JsonView::Object(o) => {
                let list_changed = opt_field::<bool>(o, "listChanged"@);
                if collides(o, Self::names()) {
                    Err(SchemaError::FieldCollision)
                } else if list_changed is Err {
                    Err(list_changed->Err_0)
                } else {
                    Ok(
                        PromptsCapabilityView {
                            list_changed: list_changed->Ok_0,
                        },
                    )
                }
            },
            _ => Err(SchemaError::ParamsShapeMismatch),
        }
    }

    /// The declared fields of a valid value have names of their own and
    /// well-formed values.
    pub proof fn lemma_members(v: PromptsCapabilityView)
        requires
            Self::valid(v),
        ensures
            members_ok(Self::members(v), Self::names()),
    {
        broadcast use group_record;

        reveal_strlit("listChanged");
        assert("listChanged"@.len() == 11);
        if v.list_changed is Some {
            bool::lemma_round_trip(v.list_changed->Some_0);
        }
    }
}

impl Wire for PromptsCapability {
    open spec fn valid(v: PromptsCapabilityView) -> bool {
        &&& valid_opt::<bool>(v.list_changed)
    }

    open spec fn encode(v: PromptsCapabilityView) -> JsonView {
        Self::written(v)
    }

    open spec fn decode(j: JsonView) -> Result<PromptsCapabilityView, SchemaError> {
        Self::read(j)
    }

    fn to_json(&self) -> (j: Json) {
        let mut out = no_members();
        write_opt_field::<bool>(&mut out, "listChanged", &self.list_changed);
        proof {
            broadcast use group_writer;

            reveal(PromptsCapability::written);
            lemma_object_view(out);
        }
        Json::Object(out)
    }

    fn from_json(j: &Json) -> (r: Result<PromptsCapability, SchemaError>) {
        proof {
            reveal(PromptsCapability::read);
        }
        match j {
            Json::Object(entries) => {
                proof {
                    lemma_object_view(*entries);
                }
                if repeats::<PromptsCapability>(entries) {
                    return Err(SchemaError::FieldCollision);
                }
                let list_changed = read_opt_field::<bool>(entries, "listChanged")?;
                Ok(PromptsCapability { list_changed })
            },
            _ => Err(SchemaError::ParamsShapeMismatch),
        }
    }

    proof fn lemma_round_trip(v: PromptsCapabilityView) {
        reveal(PromptsCapability::written);
        reveal(PromptsCapability::read);
        let m = Self::members(v);
        Self::lemma_members(v);
        lemma_written_record(m, Seq::empty(), Self::names());
        lemma_member_at(m, Self::names(), 0);
        if v.list_changed is Some {
            bool::lemma_round_trip(v.list_changed->Some_0);
        }
        assert(present(m) + Seq::empty() =~= present(m));
    }
}

impl WireSound for PromptsCapability {
    proof fn lemma_decoded_valid(j: JsonView) {
        broadcast use group_record;

        reveal(PromptsCapability::written);
        reveal(PromptsCapability::read);
        let o = j->Object_0;
        if get(o, "listChanged"@) is Some && get(o, "listChanged"@) != Some(JsonView::Null) {
            bool::lemma_decoded_valid(get(o, "listChanged"@)->Some_0);
        }
    }
}

impl Layout for PromptsCapability {
    open spec fn layout(v: PromptsCapabilityView) -> Members {
        Self::members(v)
    }

    open spec fn others(v: PromptsCapabilityView) -> Fields {
        Seq::empty()
    }

    proof fn lemma_layout(v: PromptsCapabilityView) {
        reveal(PromptsCapability::written);
        Self::lemma_members(v);
        assert(Self::layout(v) == Self::members(v));
        assert(Self::others(v) == Seq::<(Seq<char>, JsonView)>::empty());
        assert(fields_wf(Seq::<(Seq<char>, JsonView)>::empty()));
        assert(present(Self::members(v)) + Seq::empty() =~= present(Self::members(v)));
    }
}

/// Whether the server takes subscriptions to resources and announces changes to
/// their list.
#[derive(Debug, Clone)]
pub struct ResourcesCapability {
    pub subscribe: Option<bool>,
    pub list_changed: Option<bool>,
}

/// [`ResourcesCapability`] as specifications see it.
pub struct ResourcesCapabilityView {
    pub subscribe: Option<bool>,
    pub list_changed: Option<bool>,
}

impl DeepView for ResourcesCapability {
    type V = ResourcesCapabilityView;

    open spec fn deep_view(&self) -> ResourcesCapabilityView {
        ResourcesCapabilityView {
            subscribe: self.subscribe.deep_view(),
            list_changed: self.list_changed.deep_view(),
        }
    }
}

impl Record for ResourcesCapability {
    open spec fn names() -> Set<Seq<char>> {
        set!["subscribe"@, "listChanged"@]
    }

    fn declares(key: &str) -> (b: bool) {
        same_text(key, "subscribe") || same_text(key, "listChanged")
    }
}

impl ResourcesCapability {
    /// The declared fields of `v`, each with what is written for it.
    pub open spec fn members(v: ResourcesCapabilityView) -> Members {
        Seq::empty()
            .push(opt_member::<bool>("subscribe"@, v.subscribe))
            .push(opt_member::<bool>("listChanged"@, v.list_changed))
    }

    /// The object that stands for `v`: its declared fields.
    #[verifier::opaque]
    pub open spec fn written(v: ResourcesCapabilityView) -> JsonView {
        JsonView::Object(present(Self::members(v)))
    }

    /// What `j` is read as: an object in which no declared name occurs twice
    /// and every declared field reads; the first field that does not read
    /// gives the error. Other members are passed over.
    #[verifier::opaque]
    pub open spec fn read(j: JsonView) -> Result<ResourcesCapabilityView, SchemaError> {
        match j {
            JsonView::Object(o) => {
                let subscribe = opt_field::<bool>(o, "subscribe"@);
                let list_changed = opt_field::<bool>(o, "listChanged"@);
                if collides(o, Self::names()) {
                    Err(SchemaError::FieldCollision)
                } else if subscribe is Err {
                    Err(subscribe->Err_0)
                } else if list_changed is Err {
                    Err(list_changed->Err_0)
                } else {
                    Ok(
                        ResourcesCapabilityView {
                            subscribe: subscribe->Ok_0,
                            list_changed: list_changed->Ok_0,
                        },
                    )
                }
            },
            _ => Err(SchemaError::ParamsShapeMismatch),
        }
    }

    /// The declared fields of a valid value have names of their own and
    /// well-formed values.
    pub proof fn lemma_members(v: ResourcesCapabilityView)
        requires
            Self::valid(v),
        ensures
            members_ok(Self::members(v), Self::names()),
    {
        broadcast use group_record;

        reveal_strlit("subscribe");
        reveal_strlit("listChanged");
        assert("subscribe"@.len() == 9);
        assert("listChanged"@.len() == 11);
        if v.subscribe is Some {
            bool::lemma_round_trip(v.subscribe->Some_0);
        }
        if v.list_changed is Some {
            bool::lemma_round_trip(v.list_changed->Some_0);
        }
    }
}

impl Wire for ResourcesCapability {
    open spec fn valid(v: ResourcesCapabilityView) -> bool {
        &&& valid_opt::<bool>(v.subscribe)
        &&& valid_opt::<bool>(v.list_changed)
    }

    open spec fn encode(v: ResourcesCapabilityView) -> JsonView {
        Self::written(v)
    }

    open spec fn decode(j: JsonView) -> Result<ResourcesCapabilityView, SchemaError> {
        Self::read(j)
    }

    fn to_json(&self) -> (j: Json) {
        let mut out = no_members();
        write_opt_field::<bool>(&mut out, "subscribe", &self.subscribe);
        write_opt_field::<bool>(&mut out, "listChanged", &self.list_changed);
        proof {
            broadcast use group_writer;

            reveal(ResourcesCapability::written);
            lemma_object_view(out);
        }
        Json::Object(out)
    }

    fn from_json(j: &Json) -> (r: Result<ResourcesCapability, SchemaError>) {
        proof {
            reveal(ResourcesCapability::read);
        }
        match j {
            Json::Object(entries) => {
                proof {
                    lemma_object_view(*entries);
                }
                if repeats::<ResourcesCapability>(entries) {
                    return Err(SchemaError::FieldCollision);
                }
                let subscribe = read_opt_field::<bool>(entries, "subscribe")?;
                let list_changed = read_opt_field::<bool>(entries, "listChanged")?;
                Ok(ResourcesCapability { subscribe, list_changed })
            },
            _ => Err(SchemaError::ParamsShapeMismatch),
        }
    }

    proof fn lemma_round_trip(v: ResourcesCapabilityView) {
        reveal(ResourcesCapability::written);
        reveal(ResourcesCapability::read);
        let m = Self::members(v);
        Self::lemma_members(v);
        lemma_written_record(m, Seq::empty(), Self::names());
        lemma_member_at(m, Self::names(), 0);
        lemma_member_at(m, Self::names(), 1);
        if v.subscribe is Some {
            bool::lemma_round_trip(v.subscribe->Some_0);
        }
        if v.list_changed is Some {
            bool::lemma_round_trip(v.list_changed->Some_0);
        }
        assert(present(m) + Seq::empty() =~= present(m));
    }
}

impl WireSound for ResourcesCapability {
    proof fn lemma_decoded_valid(j: JsonView) {
        broadcast use group_record;

        reveal(ResourcesCapability::written);
        reveal(ResourcesCapability::read);
        let o = j->Object_0;
        if get(o, "subscribe"@) is Some && get(o, "subscribe"@) != Some(JsonView::Null) {
            bool::lemma_decoded_valid(get(o, "subscribe"@)->Some_0);
        }
        if get(o, "listChanged"@) is Some && get(o, "listChanged"@) != Some(JsonView::Null) {
            bool::lemma_decoded_valid(get(o, "listChanged"@)->Some_0);
        }
    }
}

impl Layout for ResourcesCapability {
    open spec fn layout(v: ResourcesCapabilityView) -> Members {
        Self::members(v)
    }

    open spec fn others(v: ResourcesCapabilityView) -> Fields {
        Seq::empty()
    }

    proof fn lemma_layout(v: ResourcesCapabilityView) {
        reveal(ResourcesCapability::written);
        Self::lemma_members(v);
        assert(Self::layout(v) == Self::members(v));
        assert(Self::others(v) == Seq::<(Seq<char>, JsonView)>::empty());
        assert(fields_wf(Seq::<(Seq<char>, JsonView)>::empty()));
        assert(present(Self::members(v)) + Seq::empty() =~= present(Self::members(v)));
    }
}

/// Whether the server announces changes to its list of tools.
#[derive(Debug, Clone)]
pub struct ToolsCapability {
    pub list_changed: Option<bool>,
}

/// [`ToolsCapability`] as specifications see it.
pub struct ToolsCapabilityView {
    pub list_changed: Option<bool>,
}

impl DeepView for ToolsCapability {
    type V = ToolsCapabilityView;

    open spec fn deep_view(&self) -> ToolsCapabilityView {
        ToolsCapabilityView {
            list_changed: self.list_changed.deep_view(),
        }
    }
}

impl Record for ToolsCapability {
    open spec fn names() -> Set<Seq<char>> {
        set!["listChanged"@]
    }

    fn declares(key: &str) -> (b: bool) {
        same_text(key, "listChanged")
    }
}

impl ToolsCapability {
    /// The declared fields of `v`, each with what is written for it.
    pub open spec fn members(v: ToolsCapabilityView) -> Members {
        Seq::empty()
            .push(opt_member::<bool>("listChanged"@, v.list_changed))
    }

    /// The object that stands for `v`: its declared fields.
    #[verifier::opaque]
    pub open spec fn written(v: ToolsCapabilityView) -> JsonView {
        JsonView::Object(present(Self::members(v)))
    }

    /// What `j` is read as: an object in which no declared name occurs twice
    /// and every declared field reads; the first field that does not read
    /// gives the error. Other members are passed over.
    #[verifier::opaque]
    pub open spec fn read(j: JsonView) -> Result<ToolsCapabilityView, SchemaError> {
        match j {
            JsonView::Object(o) => {
                let list_changed = opt_field::<bool>(o, "listChanged"@);
                if collides(o, Self::names()) {
                    Err(SchemaError::FieldCollision)
                } else if list_changed is Err {
                    Err(list_changed->Err_0)
                } else {
                    Ok(
                        ToolsCapabilityView {
                            list_changed: list_changed->Ok_0,
                        },
                    )
                }
            },
            _ => Err(SchemaError::ParamsShapeMismatch),
        }
    }

    /// The declared fields of a valid value have names of their own and
    /// well-formed values.
    pub proof fn lemma_members(v: ToolsCapabilityView)
        requires
            Self::valid(v),
        ensures
            members_ok(Self::members(v), Self::names()),
    {
        broadcast use group_record;

        reveal_strlit("listChanged");
        assert("listChanged"@.len() == 11);
        if v.list_changed is Some {
            bool::lemma_round_trip(v.list_changed->Some_0);
        }
    }
}

impl Wire for ToolsCapability {
    open spec fn valid(v: ToolsCapabilityView) -> bool {
        &&& valid_opt::<bool>(v.list_changed)
    }

    open spec fn encode(v: ToolsCapabilityView) -> JsonView {
        Self::written(v)
    }

    open spec fn decode(j: JsonView) -> Result<ToolsCapabilityView, SchemaError> {
        Self::read(j)
    }

    fn to_json(&self) -> (j: Json) {
        let mut out = no_members();
        write_opt_field::<bool>(&mut out, "listChanged", &self.list_changed);
        proof {
            broadcast use group_writer;

            reveal(ToolsCapability::written);
            lemma_object_view(out);
        }
        Json::Object(out)
    }

    fn from_json(j: &Json) -> (r: Result<ToolsCapability, SchemaError>) {
        proof {
            reveal(ToolsCapability::read);
        }
        match j {
            Json::Object(entries) => {
                proof {
                    lemma_object_view(*entries);
                }
                if repeats::<ToolsCapability>(entries) {
                    return Err(SchemaError::FieldCollision);
                }
                let list_changed = read_opt_field::<bool>(entries, "listChanged")?;
                Ok(ToolsCapability { list_changed })
            },
            _ => Err(SchemaError::ParamsShapeMismatch),
        }
    }

    proof fn lemma_round_trip(v: ToolsCapabilityView) {
        reveal(ToolsCapability::written);
        reveal(ToolsCapability::read);
        let m = Self::members(v);
        Self::lemma_members(v);
        lemma_written_record(m, Seq::empty(), Self::names());
        lemma_member_at(m, Self::names(), 0);
        if v.list_changed is Some {
            bool::lemma_round_trip(v.list_changed->Some_0);
        }
        assert(present(m) + Seq::empty() =~= present(m));
    }
}

impl WireSound for ToolsCapability {
    proof fn lemma_decoded_valid(j: JsonView) {
        broadcast use group_record;

        reveal(ToolsCapability::written);
        reveal(ToolsCapability::read);
        let o = j->Object_0;
        if get(o, "listChanged"@) is Some && get(o, "listChanged"@) != Some(JsonView::Null) {
            bool::lemma_decoded_valid(get(o, "listChanged"@)->Some_0);
        }
    }
}

impl Layout for ToolsCapability {
    open spec fn layout(v: ToolsCapabilityView) -> Members {
        Self::members(v)
    }

    open spec fn others(v: ToolsCapabilityView) -> Fields {
        Seq::empty()
    }

    proof fn lemma_layout(v: ToolsCapabilityView) {
        reveal(ToolsCapability::written);
        Self::lemma_members(v);
        assert(Self::layout(v) == Self::members(v));
        assert(Self::others(v) == Seq::<(Seq<char>, JsonView)>::empty());
        assert(fields_wf(Seq::<(Seq<char>, JsonView)>::empty()));
        assert(present(Self::members(v)) + Seq::empty() =~= present(Self::members(v)));
    }
}

/// What a client can do.
#[derive(Debug, Clone)]
pub struct ClientCapabilities {
    pub experimental: Option<JsonObject>,
    pub roots: Option<RootsCapability>,
    pub sampling: Option<JsonObject>,
    pub extra: JsonObject,
}

/// [`ClientCapabilities`] as specifications see it.
pub struct ClientCapabilitiesView {
    pub experimental: Option<Fields>,
    pub roots: Option<RootsCapabilityView>,
    pub sampling: Option<Fields>,
    pub extra: Fields,
}

impl DeepView for ClientCapabilities {
    type V = ClientCapabilitiesView;

    open spec fn deep_view(&self) -> ClientCapabilitiesView {
        ClientCapabilitiesView {
            experimental: self.experimental.deep_view(),
            roots: self.roots.deep_view(),
            sampling: self.sampling.deep_view(),
            extra: self.extra.deep_view(),
        }
    }
}

impl ClientCapabilities {
    /// The value with nothing in it.
    pub open spec fn default_view() -> ClientCapabilitiesView {
        ClientCapabilitiesView {
            experimental: None,
            roots: None,
            sampling: None,
            extra: Seq::empty(),
        }
    }
}

impl Default for ClientCapabilities {
    fn default() -> (r: ClientCapabilities)
        ensures
            r.deep_view() == Self::default_view(),
    {
        ClientCapabilities {
            experimental: None,
            roots: None,
            sampling: None,
            extra: JsonObject::new(),
        }
    }
}

impl Record for ClientCapabilities {
    open spec fn names() -> Set<Seq<char>> {
        set!["experimental"@, "roots"@, "sampling"@]
    }

    fn declares(key: &str) -> (b: bool) {
        same_text(key, "experimental") || same_text(key, "roots") || same_text(key, "sampling")
    }
}

impl ClientCapabilities {
    /// The declared fields of `v`, each with what is written for it.
    pub open spec fn members(v: ClientCapabilitiesView) -> Members {
        Seq::empty()
            .push(opt_member::<JsonObject>("experimental"@, v.experimental))
            .push(opt_member::<RootsCapability>("roots"@, v.roots))
            .push(opt_member::<JsonObject>("sampling"@, v.sampling))
    }

    /// The object that stands for `v`: its declared fields, then its other
    /// members.
    #[verifier::opaque]
    pub open spec fn written(v: ClientCapabilitiesView) -> JsonView {
        JsonView::Object(present(Self::members(v)) + v.extra)
    }

    /// What `j` is read as: an object in which no declared name occurs twice
    /// and every declared field reads; the first field that does not read
    /// gives the error. The other members are kept.
    #[verifier::opaque]
    pub open spec fn read(j: JsonView) -> Result<ClientCapabilitiesView, SchemaError> {
        match j {
            JsonView::Object(o) => {
                let experimental = opt_field::<JsonObject>(o, "experimental"@);
                let roots = opt_field::<RootsCapability>(o, "roots"@);
                let sampling = opt_field::<JsonObject>(o, "sampling"@);
                if collides(o, Self::names()) {
                    Err(SchemaError::FieldCollision)
                } else if experimental is Err {
                    Err(experimental->Err_0)
                } else if roots is Err {
                    Err(roots->Err_0)
                } else if sampling is Err {
                    Err(sampling->Err_0)
                } else {
                    Ok(
                        ClientCapabilitiesView {
                            experimental: experimental->Ok_0,
                            roots: roots->Ok_0,
                            sampling: sampling->Ok_0,
                            extra: without(o, Self::names()),
                        },
                    )
                }
            },
            _ => Err(SchemaError::ParamsShapeMismatch),
        }
    }

    /// The declared fields of a valid value have names of their own and
    /// well-formed values.
    pub proof fn lemma_members(v: ClientCapabilitiesView)
        requires
            Self::valid(v),
        ensures
            members_ok(Self::members(v), Self::names()),
    {
        broadcast use group_record;

        reveal_strlit("experimental");
        reveal_strlit("roots");
        reveal_strlit("sampling");
        assert("experimental"@.len() == 12);
        assert("roots"@.len() == 5);
        assert("sampling"@.len() == 8);
        if v.experimental is Some {
            JsonObject::lemma_round_trip(v.experimental->Some_0);
        }
        if v.roots is Some {
            RootsCapability::lemma_round_trip(v.roots->Some_0);
        }
        if v.sampling is Some {
            JsonObject::lemma_round_trip(v.sampling->Some_0);
        }
    }
}

impl Wire for ClientCapabilities {
    open spec fn valid(v: ClientCapabilitiesView) -> bool {
        &&& valid_opt::<JsonObject>(v.experimental)
        &&& valid_opt::<RootsCapability>(v.roots)
        &&& valid_opt::<JsonObject>(v.sampling)
        &&& fields_wf(v.extra)
        &&& avoids(v.extra, Self::names())
    }

    open spec fn encode(v: ClientCapabilitiesView) -> JsonView {
        Self::written(v)
    }

    open spec fn decode(j: JsonView) -> Result<ClientCapabilitiesView, SchemaError> {
        Self::read(j)
    }

    fn to_json(&self) -> (j: Json) {
        let mut out = no_members();
        write_opt_field::<JsonObject>(&mut out, "experimental", &self.experimental);
        write_opt_field::<RootsCapability>(&mut out, "roots", &self.roots);
        write_opt_field::<JsonObject>(&mut out, "sampling", &self.sampling);
        write_rest(&mut out, &self.extra);
        proof {
            broadcast use group_writer;

            reveal(ClientCapabilities::written);
            lemma_object_view(out);
        }
        Json::Object(out)
    }

    fn from_json(j: &Json) -> (r: Result<ClientCapabilities, SchemaError>) {
        proof {
            reveal(ClientCapabilities::read);
        }
        match j {
            Json::Object(entries) => {
                proof {
                    lemma_object_view(*entries);
                }
                if repeats::<ClientCapabilities>(entries) {
                    return Err(SchemaError::FieldCollision);
                }
                let experimental = read_opt_field::<JsonObject>(entries, "experimental")?;
                let roots = read_opt_field::<RootsCapability>(entries, "roots")?;
                let sampling = read_opt_field::<JsonObject>(entries, "sampling")?;
                Ok(
                    ClientCapabilities {
                        experimental,
                        roots,
                        sampling,
                        extra: rest::<ClientCapabilities>(entries),
                    },
                )
            },
            _ => Err(SchemaError::ParamsShapeMismatch),
        }
    }

    proof fn lemma_round_trip(v: ClientCapabilitiesView) {
        reveal(ClientCapabilities::written);
        reveal(ClientCapabilities::read);
        let m = Self::members(v);
        Self::lemma_members(v);
        lemma_written_record(m, v.extra, Self::names());
        lemma_member_at(m, Self::names(), 0);
        lemma_member_at(m, Self::names(), 1);
        lemma_member_at(m, Self::names(), 2);
        if v.experimental is Some {
            JsonObject::lemma_round_trip(v.experimental->Some_0);
        }
        if v.roots is Some {
            RootsCapability::lemma_round_trip(v.roots->Some_0);
        }
        if v.sampling is Some {
            JsonObject::lemma_round_trip(v.sampling->Some_0);
        }
    }
}

impl WireSound for ClientCapabilities {
    proof fn lemma_decoded_valid(j: JsonView) {
        broadcast use group_record;

        reveal(ClientCapabilities::written);
        reveal(ClientCapabilities::read);
        let o = j->Object_0;
        if get(o, "experimental"@) is Some && get(o, "experimental"@) != Some(JsonView::Null) {
            JsonObject::lemma_decoded_valid(get(o, "experimental"@)->Some_0);
        }
        if get(o, "roots"@) is Some && get(o, "roots"@) != Some(JsonView::Null) {
            RootsCapability::lemma_decoded_valid(get(o, "roots"@)->Some_0);
        }
        if get(o, "sampling"@) is Some && get(o, "sampling"@) != Some(JsonView::Null) {
            JsonObject::lemma_decoded_valid(get(o, "sampling"@)->Some_0);
        }
        lemma_without_members(o, Self::names());
    }
}

impl Layout for ClientCapabilities {
    open spec fn layout(v: ClientCapabilitiesView) -> Members {
        Self::members(v)
    }

    open spec fn others(v: ClientCapabilitiesView) -> Fields {
        v.extra
    }

    proof fn lemma_layout(v: ClientCapabilitiesView) {
        reveal(ClientCapabilities::written);
        Self::lemma_members(v);
    }
}

/// What a server can do.
#[derive(Debug, Clone)]
pub struct ServerCapabilities {
    pub experimental: Option<JsonObject>,
    pub logging: Option<JsonObject>,
    pub prompts: Option<PromptsCapability>,
    pub resources: Option<ResourcesCapability>,
    pub tools: Option<ToolsCapability>,
    pub extra: JsonObject,
}

/// [`ServerCapabilities`] as specifications see it.
pub struct ServerCapabilitiesView {
    pub experimental: Option<Fields>,
    pub logging: Option<Fields>,
    pub prompts: Option<PromptsCapabilityView>,
    pub resources: Option<ResourcesCapabilityView>,
    pub tools: Option<ToolsCapabilityView>,
    pub extra: Fields,
}

impl DeepView for ServerCapabilities {
    type V = ServerCapabilitiesView;

    open spec fn deep_view(&self) -> ServerCapabilitiesView {
        ServerCapabilitiesView {
            experimental: self.experimental.deep_view(),
            logging: self.logging.deep_view(),
            prompts: self.prompts.deep_view(),
            resources: self.resources.deep_view(),
            tools: self.tools.deep_view(),
            extra: self.extra.deep_view(),
        }
    }
}

impl Record for ServerCapabilities {
    open spec fn names() -> Set<Seq<char>> {
        set!["experimental"@, "logging"@, "prompts"@, "resources"@, "tools"@]
    }

    fn declares(key: &str) -> (b: bool) {
        same_text(key, "experimental")
            || same_text(key, "logging")
            || same_text(key, "prompts")
            || same_text(key, "resources")
            || same_text(key, "tools")
    }
}

impl ServerCapabilities {
    /// The declared fields of `v`, each with what is written for it.
    pub open spec fn members(v: ServerCapabilitiesView) -> Members {
        Seq::empty()
            .push(opt_member::<JsonObject>("experimental"@, v.experimental))
            .push(opt_member::<JsonObject>("logging"@, v.logging))
            .push(opt_member::<PromptsCapability>("prompts"@, v.prompts))
            .push(opt_member::<ResourcesCapability>("resources"@, v.resources))
            .push(opt_member::<ToolsCapability>("tools"@, v.tools))
    }

    /// The object that stands for `v`: its declared fields, then its other
    /// members.
    #[verifier::opaque]
    pub open spec fn written(v: ServerCapabilitiesView) -> JsonView {
        JsonView::Object(present(Self::members(v)) + v.extra)
    }

    /// What `j` is read as: an object in which no declared name occurs twice
    /// and every declared field reads; the first field that does not read
    /// gives the error. The other members are kept.
    #[verifier::opaque]
    pub open spec fn read(j: JsonView) -> Result<ServerCapabilitiesView, SchemaError> {
        match j {
            JsonView::Object(o) => {
                let experimental = opt_field::<JsonObject>(o, "experimental"@);
                let logging = opt_field::<JsonObject>(o, "logging"@);
                let prompts = opt_field::<PromptsCapability>(o, "prompts"@);
                let resources = opt_field::<ResourcesCapability>(o, "resources"@);
                let tools = opt_field::<ToolsCapability>(o, "tools"@);
                if collides(o, Self::names()) {
                    Err(SchemaError::FieldCollision)
                } else if experimental is Err {
                    Err(experimental->Err_0)
                } else if logging is Err {
                    Err(logging->Err_0)
                } else if prompts is Err {
                    Err(prompts->Err_0)
                } else if resources is Err {
                    Err(resources->Err_0)
                } else if tools is Err {
                    Err(tools->Err_0)
                } else {
                    Ok(
                        ServerCapabilitiesView {
                            experimental: experimental->Ok_0,
                            logging: logging->Ok_0,
                            prompts: prompts->Ok_0,
                            resources: resources->Ok_0,
                            tools: tools->Ok_0,
                            extra: without(o, Self::names()),
                        },
                    )
                }
            },
            _ => Err(SchemaError::ParamsShapeMismatch),
        }
    }

    /// The declared fields of a valid value have names of their own and
    /// well-formed values.
    pub proof fn lemma_members(v: ServerCapabilitiesView)
        requires
            Self::valid(v),
        ensures
            members_ok(Self::members(v), Self::names()),
    {
        broadcast use group_record;

        reveal_strlit("experimental");
        reveal_strlit("logging");
        reveal_strlit("prompts");
        reveal_strlit("resources");
        reveal_strlit("tools");
        assert("experimental"@.len() == 12);
        assert("logging"@.len() == 7);
        assert("prompts"@.len() == 7);
        assert("resources"@.len() == 9);
        assert("tools"@.len() == 5);
        assert("logging"@[0] == 'l');
        assert("prompts"@[0] == 'p');
        if v.experimental is Some {
            JsonObject::lemma_round_trip(v.experimental->Some_0);
        }
        if v.logging is Some {
            JsonObject::lemma_round_trip(v.logging->Some_0);
        }
        if v.prompts is Some {
            PromptsCapability::lemma_round_trip(v.prompts->Some_0);
        }
        if v.resources is Some {
            ResourcesCapability::lemma_round_trip(v.resources->Some_0);
        }
        if v.tools is Some {
            ToolsCapability::lemma_round_trip(v.tools->Some_0);
        }
    }
}

impl Wire for ServerCapabilities {
    open spec fn valid(v: ServerCapabilitiesView) -> bool {
        &&& valid_opt::<JsonObject>(v.experimental)
        &&& valid_opt::<JsonObject>(v.logging)
        &&& valid_opt::<PromptsCapability>(v.prompts)
        &&& valid_opt::<ResourcesCapability>(v.resources)
        &&& valid_opt::<ToolsCapability>(v.tools)
        &&& fields_wf(v.extra)
        &&& avoids(v.extra, Self::names())
    }

    open spec fn encode(v: ServerCapabilitiesView) -> JsonView {
        Self::written(v)
    }

    open spec fn decode(j: JsonView) -> Result<ServerCapabilitiesView, SchemaError> {
        Self::read(j)
    }

    fn to_json(&self) -> (j: Json) {
        let mut out = no_members();
        write_opt_field::<JsonObject>(&mut out, "experimental", &self.experimental);
        write_opt_field::<JsonObject>(&mut out, "logging", &self.logging);
        write_opt_field::<PromptsCapability>(&mut out, "prompts", &self.prompts);
        write_opt_field::<ResourcesCapability>(&mut out, "resources", &self.resources);
        write_opt_field::<ToolsCapability>(&mut out, "tools", &self.tools);
        write_rest(&mut out, &self.extra);
        proof {
            broadcast use group_writer;

            reveal(ServerCapabilities::written);
            lemma_object_view(out);
        }
        Json::Object(out)
    }

    fn from_json(j: &Json) -> (r: Result<ServerCapabilities, SchemaError>) {
        proof {
            reveal(ServerCapabilities::read);
        }
        match j {
            Json::Object(entries) => {
                proof {
                    lemma_object_view(*entries);
                }
                if repeats::<ServerCapabilities>(entries) {
                    return Err(SchemaError::FieldCollision);
                }
                let experimental = read_opt_field::<JsonObject>(entries, "experimental")?;
                let logging = read_opt_field::<JsonObject>(entries, "logging")?;
                let prompts = read_opt_field::<PromptsCapability>(entries, "prompts")?;
                let resources = read_opt_field::<ResourcesCapability>(entries, "resources")?;
                let tools = read_opt_field::<ToolsCapability>(entries, "tools")?;
                Ok(
                    ServerCapabilities {
                        experimental,
                        logging,
                        prompts,
                        resources,
                        tools,
                        extra: rest::<ServerCapabilities>(entries),
                    },
                )
            },
            _ => Err(SchemaError::ParamsShapeMismatch),
        }
    }

    proof fn lemma_round_trip(v: ServerCapabilitiesView) {
        reveal(ServerCapabilities::written);
        reveal(ServerCapabilities::read);
        let m = Self::members(v);
        Self::lemma_members(v);
        lemma_written_record(m, v.extra, Self::names());
        lemma_member_at(m, Self::names(), 0);
        lemma_member_at(m, Self::names(), 1);
        lemma_member_at(m, Self::names(), 2);
        lemma_member_at(m, Self::names(), 3);
        lemma_member_at(m, Self::names(), 4);
        if v.experimental is Some {
            JsonObject::lemma_round_trip(v.experimental->Some_0);
        }
        if v.logging is Some {
            JsonObject::lemma_round_trip(v.logging->Some_0);
        }
        if v.prompts is Some {
            PromptsCapability::lemma_round_trip(v.prompts->Some_0);
        }
        if v.resources is Some {
            ResourcesCapability::lemma_round_trip(v.resources->Some_0);
        }
        if v.tools is Some {
            ToolsCapability::lemma_round_trip(v.tools->Some_0);
        }
    }
}

impl WireSound for ServerCapabilities {
    proof fn lemma_decoded_valid(j: JsonView) {
        broadcast use group_record;

        reveal(ServerCapabilities::written);
        reveal(ServerCapabilities::read);
        let o = j->Object_0;
        if get(o, "experimental"@) is Some && get(o, "experimental"@) != Some(JsonView::Null) {
            JsonObject::lemma_decoded_valid(get(o, "experimental"@)->Some_0);
        }
        if get(o, "logging"@) is Some && get(o, "logging"@) != Some(JsonView::Null) {
            JsonObject::lemma_decoded_valid(get(o, "logging"@)->Some_0);
        }
        if get(o, "prompts"@) is Some && get(o, "prompts"@) != Some(JsonView::Null) {
            PromptsCapability::lemma_decoded_valid(get(o, "prompts"@)->Some_0);
        }
        if get(o, "resources"@) is Some && get(o, "resources"@) != Some(JsonView::Null) {
            ResourcesCapability::lemma_decoded_valid(get(o, "resources"@)->Some_0);
        }
        if get(o, "tools"@) is Some && get(o, "tools"@) != Some(JsonView::Null) {
            ToolsCapability::lemma_decoded_valid(get(o, "tools"@)->Some_0);
        }
        lemma_without_members(o, Self::names());
    }
}

impl Layout for ServerCapabilities {
    open spec fn layout(v: ServerCapabilitiesView) -> Members {
        Self::members(v)
    }

    open spec fn others(v: ServerCapabilitiesView) -> Fields {
        v.extra
    }

    proof fn lemma_layout(v: ServerCapabilitiesView) {
        reveal(ServerCapabilities::written);
        Self::lemma_members(v);
    }
}

/// The parameters of `initialize`.
#[derive(Debug, Clone)]
pub struct InitializeParams {
    pub protocol_version: String,
    pub capabilities: ClientCapabilities,
    pub client_info: Implementation,
}

/// [`InitializeParams`] as specifications see it.
pub struct InitializeParamsView {
    pub protocol_version: Seq<char>,
    pub capabilities: ClientCapabilitiesView,
    pub client_info: ImplementationView,
}

impl DeepView for InitializeParams {
    type V = InitializeParamsView;

    open spec fn deep_view(&self) -> InitializeParamsView {
        InitializeParamsView {
            protocol_version: self.protocol_version.deep_view(),
            capabilities: self.capabilities.deep_view(),
            client_info: self.client_info.deep_view(),
        }
    }
}

impl Record for InitializeParams {
    open spec fn names() -> Set<Seq<char>> {
        set!["protocolVersion"@, "capabilities"@, "clientInfo"@]
    }

    fn declares(key: &str) -> (b: bool) {
        same_text(key, "protocolVersion")
            || same_text(key, "capabilities")
            || same_text(key, "clientInfo")
    }
}

impl InitializeParams {
    /// The declared fields of `v`, each with what is written for it.
    pub open spec fn members(v: InitializeParamsView) -> Members {
        Seq::empty()
            .push(member::<String>("protocolVersion"@, v.protocol_version))
            .push(member::<ClientCapabilities>("capabilities"@, v.capabilities))
            .push(member::<Implementation>("clientInfo"@, v.client_info))
    }

    /// The object that stands for `v`: its declared fields.
    #[verifier::opaque]
    pub open spec fn written(v: InitializeParamsView) -> JsonView {
        JsonView::Object(present(Self::members(v)))
    }

    /// What `j` is read as: an object in which no declared name occurs twice
    /// and every declared field reads; the first field that does not read
    /// gives the error. Other members are passed over.
    #[verifier::opaque]
    pub open spec fn read(j: JsonView) -> Result<InitializeParamsView, SchemaError> {
        match j {
            JsonView::Object(o) => {
                let protocol_version = field::<String>(o, "protocolVersion"@);
                let capabilities = field::<ClientCapabilities>(o, "capabilities"@);
                let client_info = field::<Implementation>(o, "clientInfo"@);
                if collides(o, Self::names()) {
                    Err(SchemaError::FieldCollision)
                } else if protocol_version is Err {
                    Err(protocol_version->Err_0)
                } else if capabilities is Err {
                    Err(capabilities->Err_0)
                } else if client_info is Err {
                    Err(client_info->Err_0)
                } else {
                    Ok(
                        InitializeParamsView {
                            protocol_version: protocol_version->Ok_0,
                            capabilities: capabilities->Ok_0,
                            client_info: client_info->Ok_0,
                        },
                    )
                }
            },
            _ => Err(SchemaError::ParamsShapeMismatch),
        }
    }

    /// The declared fields of a valid value have names of their own and
    /// well-formed values.
    pub proof fn lemma_members(v: InitializeParamsView)
        requires
            Self::valid(v),
        ensures
            members_ok(Self::members(v), Self::names()),
    {
        broadcast use group_record;

        reveal_strlit("protocolVersion");
        reveal_strlit("capabilities");
        reveal_strlit("clientInfo");
        assert("protocolVersion"@.len() == 15);
        assert("capabilities"@.len() == 12);
        assert("clientInfo"@.len() == 10);
        String::lemma_round_trip(v.protocol_version);
        ClientCapabilities::lemma_round_trip(v.capabilities);
        Implementation::lemma_round_trip(v.client_info);
    }
}

impl Wire for InitializeParams {
    open spec fn valid(v: InitializeParamsView) -> bool {
        &&& String::valid(v.protocol_version)
        &&& ClientCapabilities::valid(v.capabilities)
        &&& Implementation::valid(v.client_info)
    }

    open spec fn encode(v: InitializeParamsView) -> JsonView {
        Self::written(v)
    }

    open spec fn decode(j: JsonView) -> Result<InitializeParamsView, SchemaError> {
        Self::read(j)
    }

    fn to_json(&self) -> (j: Json) {
        let mut out = no_members();
        write_field::<String>(&mut out, "protocolVersion", &self.protocol_version);
        write_field::<ClientCapabilities>(&mut out, "capabilities", &self.capabilities);
        write_field::<Implementation>(&mut out, "clientInfo", &self.client_info);
        proof {
            broadcast use group_writer;

            reveal(InitializeParams::written);
            lemma_object_view(out);
        }
        Json::Object(out)
    }

    fn from_json(j: &Json) -> (r: Result<InitializeParams, SchemaError>) {
        proof {
            reveal(InitializeParams::read);
        }
        match j {
            Json::Object(entries) => {
                proof {
                    lemma_object_view(*entries);
                }
                if repeats::<InitializeParams>(entries) {
                    return Err(SchemaError::FieldCollision);
                }
                let protocol_version = read_field::<String>(entries, "protocolVersion")?;
                let capabilities = read_field::<ClientCapabilities>(entries, "capabilities")?;
                let client_info = read_field::<Implementation>(entries, "clientInfo")?;
                Ok(InitializeParams { protocol_version, capabilities, client_info })
            },
            _ => Err(SchemaError::ParamsShapeMismatch),
        }
    }

    proof fn lemma_round_trip(v: InitializeParamsView) {
        reveal(InitializeParams::written);
        reveal(InitializeParams::read);
        let m = Self::members(v);
        Self::lemma_members(v);
        lemma_written_record(m, Seq::empty(), Self::names());
        lemma_member_at(m, Self::names(), 0);
        lemma_member_at(m, Self::names(), 1);
        lemma_member_at(m, Self::names(), 2);
        String::lemma_round_trip(v.protocol_version);
        ClientCapabilities::lemma_round_trip(v.capabilities);
        Implementation::lemma_round_trip(v.client_info);
        assert(present(m) + Seq::empty() =~= present(m));
    }
}

impl WireSound for InitializeParams {
    proof fn lemma_decoded_valid(j: JsonView) {
        broadcast use group_record;

        reveal(InitializeParams::written);
        reveal(InitializeParams::read);
        let o = j->Object_0;
        String::lemma_decoded_valid(get(o, "protocolVersion"@)->Some_0);
        ClientCapabilities::lemma_decoded_valid(get(o, "capabilities"@)->Some_0);
        Implementation::lemma_decoded_valid(get(o, "clientInfo"@)->Some_0);
    }
}

impl Layout for InitializeParams {
    open spec fn layout(v: InitializeParamsView) -> Members {
        Self::members(v)
    }

    open spec fn others(v: InitializeParamsView) -> Fields {
        Seq::empty()
    }

    proof fn lemma_layout(v: InitializeParamsView) {
        reveal(InitializeParams::written);
        Self::lemma_members(v);
        assert(Self::layout(v) == Self::members(v));
        assert(Self::others(v) == Seq::<(Seq<char>, JsonView)>::empty());
        assert(fields_wf(Seq::<(Seq<char>, JsonView)>::empty()));
        assert(present(Self::members(v)) + Seq::empty() =~= present(Self::members(v)));
    }
}

/// The answer to `initialize`.
#[derive(Debug, Clone)]
pub struct InitializeResult {
    pub meta: Option<JsonObject>,
    pub protocol_version: String,
    pub capabilities: ServerCapabilities,
    pub server_info: Implementation,
    pub instructions: Option<String>,
    pub extra: JsonObject,
}

/// [`InitializeResult`] as specifications see it.
pub struct InitializeResultView {
    pub meta: Option<Fields>,
    pub protocol_version: Seq<char>,
    pub capabilities: ServerCapabilitiesView,
    pub server_info: ImplementationView,
    pub instructions: Option<Seq<char>>,
    pub extra: Fields,
}

impl DeepView for InitializeResult {
    type V = InitializeResultView;

    open spec fn deep_view(&self) -> InitializeResultView {
        InitializeResultView {
            meta: self.meta.deep_view(),
            protocol_version: self.protocol_version.deep_view(),
            capabilities: self.capabilities.deep_view(),
            server_info: self.server_info.deep_view(),
            instructions: self.instructions.deep_view(),
            extra: self.extra.deep_view(),
        }
    }
}

impl Record for InitializeResult {
    open spec fn names() -> Set<Seq<char>> {
        set!["_meta"@, "protocolVersion"@, "capabilities"@, "serverInfo"@, "instructions"@]
    }

    fn declares(key: &str) -> (b: bool) {
        same_text(key, "_meta")
            || same_text(key, "protocolVersion")
            || same_text(key, "capabilities")
            || same_text(key, "serverInfo")
            || same_text(key, "instructions")
    }
}

impl InitializeResult {
    /// The declared fields of `v`, each with what is written for it.
    pub open spec fn members(v: InitializeResultView) -> Members {
        Seq::empty()
            .push(opt_member::<JsonObject>("_meta"@, v.meta))
            .push(member::<String>("protocolVersion"@, v.protocol_version))
            .push(member::<ServerCapabilities>("capabilities"@, v.capabilities))
            .push(member::<Implementation>("serverInfo"@, v.server_info))
            .push(opt_member::<String>("instructions"@, v.instructions))
    }

    /// The object that stands for `v`: its declared fields, then its other
    /// members.
    #[verifier::opaque]
    pub open spec fn written(v: InitializeResultView) -> JsonView {
        JsonView::Object(present(Self::members(v)) + v.extra)
    }

    /// What `j` is read as: an object in which no declared name occurs twice
    /// and every declared field reads; the first field that does not read
    /// gives the error. The other members are kept.
    #[verifier::opaque]
    pub open spec fn read(j: JsonView) -> Result<InitializeResultView, SchemaError> {
        match j {
            JsonView::Object(o) => {
                let meta = opt_field::<JsonObject>(o, "_meta"@);
                let protocol_version = field::<String>(o, "protocolVersion"@);
                let capabilities = field::<ServerCapabilities>(o, "capabilities"@);
                let server_info = field::<Implementation>(o, "serverInfo"@);
                let instructions = opt_field::<String>(o, "instructions"@);
                if collides(o, Self::names()) {
                    Err(SchemaError::FieldCollision)
                } else if meta is Err {
                    Err(meta->Err_0)
                } else if protocol_version is Err {
                    Err(protocol_version->Err_0)
                } else if capabilities is Err {
                    Err(capabilities->Err_0)
                } else if server_info is Err {
                    Err(server_info->Err_0)
                } else if instructions is Err {
                    Err(instructions->Err_0)
                } else {
                    Ok(
                        InitializeResultView {
                            meta: meta->Ok_0,
                            protocol_version: protocol_version->Ok_0,
                            capabilities: capabilities->Ok_0,
                            server_info: server_info->Ok_0,
                            instructions: instructions->Ok_0,
                            extra: without(o, Self::names()),
                        },
                    )
                }
            },
            _ => Err(SchemaError::ParamsShapeMismatch),
        }
    }

    /// The declared fields of a valid value have names of their own and
    /// well-formed values.
    pub proof fn lemma_members(v: InitializeResultView)
        requires
            Self::valid(v),
        ensures
            members_ok(Self::members(v), Self::names()),
    {
        broadcast use group_record;

        reveal_strlit("_meta");
        reveal_strlit("protocolVersion");
        reveal_strlit("capabilities");
        reveal_strlit("serverInfo");
        reveal_strlit("instructions");
        assert("_meta"@.len() == 5);
        assert("protocolVersion"@.len() == 15);
        assert("capabilities"@.len() == 12);
        assert("serverInfo"@.len() == 10);
        assert("instructions"@.len() == 12);
        assert("capabilities"@[0] == 'c');
        assert("instructions"@[0] == 'i');
        if v.meta is Some {
            JsonObject::lemma_round_trip(v.meta->Some_0);
        }
        String::lemma_round_trip(v.protocol_version);
        ServerCapabilities::lemma_round_trip(v.capabilities);
        Implementation::lemma_round_trip(v.server_info);
        if v.instructions is Some {
            String::lemma_round_trip(v.instructions->Some_0);
        }
    }
}

impl Wire for InitializeResult {
    open spec fn valid(v: InitializeResultView) -> bool {
        &&& valid_opt::<JsonObject>(v.meta)
        &&& String::valid(v.protocol_version)
        &&& ServerCapabilities::valid(v.capabilities)
        &&& Implementation::valid(v.server_info)
        &&& valid_opt::<String>(v.instructions)
        &&& fields_wf(v.extra)
        &&& avoids(v.extra, Self::names())
    }

    open spec fn encode(v: InitializeResultView) -> JsonView {
        Self::written(v)
    }

    open spec fn decode(j: JsonView) -> Result<InitializeResultView, SchemaError> {
        Self::read(j)
    }

    fn to_json(&self) -> (j: Json) {
        let mut out = no_members();
        write_opt_field::<JsonObject>(&mut out, "_meta", &self.meta);
        write_field::<String>(&mut out, "protocolVersion", &self.protocol_version);
        write_field::<ServerCapabilities>(&mut out, "capabilities", &self.capabilities);
        write_field::<Implementation>(&mut out, "serverInfo", &self.server_info);
        write_opt_field::<String>(&mut out, "instructions", &self.instructions);
        write_rest(&mut out, &self.extra);
        proof {
            broadcast use group_writer;

            reveal(InitializeResult::written);
            lemma_object_view(out);
        }
        Json::Object(out)
    }

    fn from_json(j: &Json) -> (r: Result<InitializeResult, SchemaError>) {
        proof {
            reveal(InitializeResult::read);
        }
        match j {
            Json::Object(entries) => {
                proof {
                    lemma_object_view(*entries);
                }
                if repeats::<InitializeResult>(entries) {
                    return Err(SchemaError::FieldCollision);
                }
                let meta = read_opt_field::<JsonObject>(entries, "_meta")?;
                let protocol_version = read_field::<String>(entries, "protocolVersion")?;
                let capabilities = read_field::<ServerCapabilities>(entries, "capabilities")?;
                let server_info = read_field::<Implementation>(entries, "serverInfo")?;
                let instructions = read_opt_field::<String>(entries, "instructions")?;
                Ok(
                    InitializeResult {
                        meta,
                        protocol_version,
                        capabilities,
                        server_info,
                        instructions,
                        extra: rest::<InitializeResult>(entries),
                    },
                )
            },
            _ => Err(SchemaError::ParamsShapeMismatch),
        }
    }

    proof fn lemma_round_trip(v: InitializeResultView) {
        reveal(InitializeResult::written);
        reveal(InitializeResult::read);
        let m = Self::members(v);
        Self::lemma_members(v);
        lemma_written_record(m, v.extra, Self::names());
        lemma_member_at(m, Self::names(), 0);
        lemma_member_at(m, Self::names(), 1);
        lemma_member_at(m, Self::names(), 2);
        lemma_member_at(m, Self::names(), 3);
        lemma_member_at(m, Self::names(), 4);
        if v.meta is Some {
            JsonObject::lemma_round_trip(v.meta->Some_0);
        }
        String::lemma_round_trip(v.protocol_version);
        ServerCapabilities::lemma_round_trip(v.capabilities);
        Implementation::lemma_round_trip(v.server_info);
        if v.instructions is Some {
            String::lemma_round_trip(v.instructions->Some_0);
        }
    }
}

impl WireSound for InitializeResult {
    proof fn lemma_decoded_valid(j: JsonView) {
        broadcast use group_record;

        reveal(InitializeResult::written);
        reveal(InitializeResult::read);
        let o = j->Object_0;
        if get(o, "_meta"@) is Some && get(o, "_meta"@) != Some(JsonView::Null) {
            JsonObject::lemma_decoded_valid(get(o, "_meta"@)->Some_0);
        }
        String::lemma_decoded_valid(get(o, "protocolVersion"@)->Some_0);
        ServerCapabilities::lemma_decoded_valid(get(o, "capabilities"@)->Some_0);
        Implementation::lemma_decoded_valid(get(o, "serverInfo"@)->Some_0);
        if get(o, "instructions"@) is Some && get(o, "instructions"@) != Some(JsonView::Null) {
            String::lemma_decoded_valid(get(o, "instructions"@)->Some_0);
        }
        lemma_without_members(o, Self::names());
    }
}

impl Layout for InitializeResult {
    open spec fn layout(v: InitializeResultView) -> Members {
        Self::members(v)
    }

    open spec fn others(v: InitializeResultView) -> Fields {
        v.extra
    }

    proof fn lemma_layout(v: InitializeResultView) {
        reveal(InitializeResult::written);
        Self::lemma_members(v);
    }
}

} // verus!
