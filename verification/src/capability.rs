//! What the peers tell each other when a session starts: who they are, and
//! which families of optional features they support.
//!
//! A capability is declared by being there. One that is left out is not
//! supported, and is left out of the wire form as well: it is never written
//! as `null`.

use crate::json::{
    no_members, object_get, object_insert, object_model, object_new, object_remove,
    value_from_bool, value_from_object, value_from_string, Json,
};
use crate::wire::{
    expect_object, member, optional_bool, optional_members, optional_object, read_object,
    read_optional_bool, read_optional_object, read_required_string, required_string, DecodeError,
    FieldPath, Message,
};
use vstd::prelude::*;

verus! {

/// The name and version of a peer. Members that this crate gives no meaning
/// are kept in `extra` and written back as they came.
#[derive(Debug, Clone, PartialEq)]
pub struct Implementation {
    pub name: String,
    pub version: String,
    pub extra: serde_json::Map<String, serde_json::Value>,
}

/// Whether a client can list its roots, and whether it tells when that list
/// changes. Members that this crate gives no meaning are kept in `extra`.
#[derive(Debug, Clone, PartialEq)]
pub struct RootsCapability {
    pub list_changed: Option<bool>,
    pub extra: serde_json::Map<String, serde_json::Value>,
}

/// The capabilities that a client declares.
#[derive(Debug, Clone, PartialEq)]
pub struct ClientCapabilities {
    pub experimental: Option<serde_json::Map<String, serde_json::Value>>,
    pub sampling: Option<serde_json::Map<String, serde_json::Value>>,
    pub roots: Option<RootsCapability>,
}

/// A peer's identity as a mathematical value.
pub struct ImplementationView {
    pub name: Seq<char>,
    pub version: Seq<char>,
    pub extra: Map<Seq<char>, Json>,
}

/// A roots capability as a mathematical value.
pub struct RootsCapabilityView {
    pub list_changed: Option<bool>,
    pub extra: Map<Seq<char>, Json>,
}

/// A client's capabilities as a mathematical value.
pub struct ClientCapabilitiesView {
    pub experimental: Option<Map<Seq<char>, Json>>,
    pub sampling: Option<Map<Seq<char>, Json>>,
    pub roots: Option<RootsCapabilityView>,
}

impl View for Implementation {
    type V = ImplementationView;

    open spec fn view(&self) -> ImplementationView {
        ImplementationView {
            name: self.name@,
            version: self.version@,
            extra: object_model(self.extra),
        }
    }
}

impl View for RootsCapability {
    type V = RootsCapabilityView;

    open spec fn view(&self) -> RootsCapabilityView {
        RootsCapabilityView { list_changed: self.list_changed, extra: object_model(self.extra) }
    }
}

impl View for ClientCapabilities {
    type V = ClientCapabilitiesView;

    open spec fn view(&self) -> ClientCapabilitiesView {
        ClientCapabilitiesView {
            experimental: optional_members(self.experimental),
            sampling: optional_members(self.sampling),
            roots: match self.roots {
                Some(r) => Some(r@),
                None => None,
            },
        }
    }
}

impl ImplementationView {
    /// No extra member hides behind the key of a named one.
    pub open spec fn wf(self) -> bool {
        !self.extra.contains_key("name"@) && !self.extra.contains_key("version"@)
    }

    /// The members of the wire form: the extra ones, and `name` and
    /// `version`. A named member goes before an extra one of the same key.
    pub open spec fn members(self) -> Map<Seq<char>, Json> {
        self.extra.insert("name"@, Json::String(self.name)).insert(
            "version"@,
            Json::String(self.version),
        )
    }
}

impl RootsCapabilityView {
    /// No extra member hides behind the key of the named one.
    pub open spec fn wf(self) -> bool {
        !self.extra.contains_key("listChanged"@)
    }

    /// The members of the wire form: the extra ones, and `listChanged`
    /// where it is set.
    pub open spec fn members(self) -> Map<Seq<char>, Json> {
        match self.list_changed {
            Some(b) => self.extra.insert("listChanged"@, Json::Bool(b)),
            None => self.extra,
        }
    }
}

impl ClientCapabilitiesView {
    /// The roots capability, where there is one, is well formed.
    pub open spec fn wf(self) -> bool {
        self.roots matches Some(r) ==> r.wf()
    }

    /// The capabilities of a client that declares none.
    pub open spec fn none() -> ClientCapabilitiesView {
        ClientCapabilitiesView { experimental: None, sampling: None, roots: None }
    }

    /// The members of the wire form: one for each capability that is
    /// declared, and none for the others.
    pub open spec fn members(self) -> Map<Seq<char>, Json> {
        let m0 = no_members();
        let m1 = match self.experimental {
            Some(e) => m0.insert("experimental"@, Json::Object(e)),
            None => m0,
        };
        let m2 = match self.sampling {
            Some(s) => m1.insert("sampling"@, Json::Object(s)),
            None => m1,
        };
        match self.roots {
            Some(r) => m2.insert("roots"@, RootsCapability::to_json(r)),
            None => m2,
        }
    }

    /// The roots capability under the key `roots`, where the object has that
    /// member. What is wrong inside it is reported as seen from outside.
    pub open spec fn roots_of(obj: Map<Seq<char>, Json>) -> Result<
        Option<RootsCapabilityView>,
        DecodeError,
    > {
        match member(obj, "roots"@) {
            Some(j) => match RootsCapability::from_json(j) {
                Ok(r) => Ok(Some(r)),
                Err(e) => Err(e.spec_within(FieldPath::Roots)),
            },
            None => Ok(None),
        }
    }
}

impl Message for Implementation {
    /// An object with the extra members, and with `name` and `version`.
    open spec fn to_json(x: ImplementationView) -> Json {
        Json::Object(x.members())
    }

    /// An object with the strings `name` and `version`, examined in this
    /// order. All its other members are the extra ones.
    open spec fn from_json(j: Json) -> Result<ImplementationView, DecodeError> {
        match expect_object(j, FieldPath::Root) {
            Err(e) => Err(e),
            Ok(obj) => match required_string(obj, "name"@, FieldPath::Name) {
                Err(e) => Err(e),
                Ok(name) => match required_string(obj, "version"@, FieldPath::Version) {
                    Err(e) => Err(e),
                    Ok(version) => Ok(
                        ImplementationView {
                            name,
                            version,
                            extra: obj.remove("name"@).remove("version"@),
                        },
                    ),
                },
            },
        }
    }

    fn encode(&self) -> (v: serde_json::Value) {
        let mut m = self.extra.clone();
        object_insert(&mut m, "name".to_owned(), value_from_string(self.name.clone()));
        object_insert(&mut m, "version".to_owned(), value_from_string(self.version.clone()));
        value_from_object(m)
    }

    fn decode(v: &serde_json::Value) -> (r: Result<Implementation, DecodeError>) {
        let obj = read_object(v, FieldPath::Root)?;
        let name = read_required_string(obj, "name", FieldPath::Name)?;
        let version = read_required_string(obj, "version", FieldPath::Version)?;
        let mut extra = obj.clone();
        object_remove(&mut extra, "name");
        object_remove(&mut extra, "version");
        Ok(Implementation { name, version, extra })
    }
}

impl Message for RootsCapability {
    /// An object with the extra members, and with `listChanged` where it is
    /// set.
    open spec fn to_json(x: RootsCapabilityView) -> Json {
        Json::Object(x.members())
    }

    /// An object whose member `listChanged`, where it has one, is a boolean.
    /// All its other members are the extra ones.
    open spec fn from_json(j: Json) -> Result<RootsCapabilityView, DecodeError> {
        match expect_object(j, FieldPath::Root) {
            Err(e) => Err(e),
            Ok(obj) => match optional_bool(obj, "listChanged"@, FieldPath::ListChanged) {
                Err(e) => Err(e),
                Ok(list_changed) => Ok(
                    RootsCapabilityView { list_changed, extra: obj.remove("listChanged"@) },
                ),
            },
        }
    }

    fn encode(&self) -> (v: serde_json::Value) {
        let mut m = self.extra.clone();
        if let Some(b) = self.list_changed {
            object_insert(&mut m, "listChanged".to_owned(), value_from_bool(b));
        }
        value_from_object(m)
    }

    fn decode(v: &serde_json::Value) -> (r: Result<RootsCapability, DecodeError>) {
        let obj = read_object(v, FieldPath::Root)?;
        let list_changed = read_optional_bool(obj, "listChanged", FieldPath::ListChanged)?;
        let mut extra = obj.clone();
        object_remove(&mut extra, "listChanged");
        Ok(RootsCapability { list_changed, extra })
    }
}

impl Message for ClientCapabilities {
    /// An object with one member for each capability that is declared.
    open spec fn to_json(x: ClientCapabilitiesView) -> Json {
        Json::Object(x.members())
    }

    /// An object whose members `experimental` and `sampling`, where it has
    /// them, are objects, and whose member `roots`, where it has one, is a
    /// roots capability, examined in this order. A capability is declared
    /// exactly where its member is there. Other members are passed over.
    open spec fn from_json(j: Json) -> Result<ClientCapabilitiesView, DecodeError> {
        match expect_object(j, FieldPath::Root) {
            Err(e) => Err(e),
            Ok(obj) => match optional_object(obj, "experimental"@, FieldPath::Experimental) {
                Err(e) => Err(e),
                Ok(experimental) => match optional_object(
                    obj,
                    "sampling"@,
                    FieldPath::Sampling,
                ) {
                    Err(e) => Err(e),
                    Ok(sampling) => match ClientCapabilitiesView::roots_of(obj) {
                        Err(e) => Err(e),
                        Ok(roots) => Ok(ClientCapabilitiesView { experimental, sampling, roots }),
                    },
                },
            },
        }
    }

    fn encode(&self) -> (v: serde_json::Value) {
        let mut m = object_new();
        if let Some(e) = &self.experimental {
            object_insert(&mut m, "experimental".to_owned(), value_from_object(e.clone()));
        }
        if let Some(s) = &self.sampling {
            object_insert(&mut m, "sampling".to_owned(), value_from_object(s.clone()));
        }
        if let Some(r) = &self.roots {
            object_insert(&mut m, "roots".to_owned(), r.encode());
        }
        value_from_object(m)
    }

    fn decode(v: &serde_json::Value) -> (r: Result<ClientCapabilities, DecodeError>) {
        let obj = read_object(v, FieldPath::Root)?;
        let experimental = read_optional_object(obj, "experimental", FieldPath::Experimental)?;
        let sampling = read_optional_object(obj, "sampling", FieldPath::Sampling)?;
        let roots = match object_get(obj, "roots") {
            Some(j) => match RootsCapability::decode(j) {
                Ok(r) => Some(r),
                Err(e) => {
                    return Err(e.within(FieldPath::Roots));
                },
            },
            None => None,
        };
        Ok(ClientCapabilities { experimental, sampling, roots })
    }
}

impl Default for ClientCapabilities {
    /// The capabilities of a client that declares none.
    fn default() -> (c: ClientCapabilities)
        ensures
            c@ == ClientCapabilitiesView::none(),
    {
        ClientCapabilities { experimental: None, sampling: None, roots: None }
    }
}

/// The keys of the capability types are different strings.
proof fn keys_differ()
    ensures
        "name"@ != "version"@,
        "experimental"@ != "sampling"@,
        "experimental"@ != "roots"@,
        "sampling"@ != "roots"@,
{
    reveal_strlit("name");
    reveal_strlit("version");
    reveal_strlit("experimental");
    reveal_strlit("sampling");
    reveal_strlit("roots");
    assert("name"@[0] == 'n' && "version"@[0] == 'v');
    assert("experimental"@[0] == 'e' && "sampling"@[0] == 's' && "roots"@[0] == 'r');
}

/// An object is an identity exactly where its `name` and its `version` are
/// strings.
pub proof fn implementation_accepts(obj: Map<Seq<char>, Json>)
    ensures
        Implementation::from_json(Json::Object(obj)) is Ok <==> {
            &&& obj.contains_key("name"@)
            &&& obj["name"@] is String
            &&& obj.contains_key("version"@)
            &&& obj["version"@] is String
        },
{
}

/// Decoding what was encoded gives the identity back, extra members
/// included.
pub proof fn implementation_round_trip(x: ImplementationView)
    requires
        x.wf(),
    ensures
        Implementation::from_json(Implementation::to_json(x)) == Ok::<_, DecodeError>(x),
{
    keys_differ();
    assert(x.members().remove("name"@).remove("version"@) =~= x.extra);
}

/// An identity is encoded as the very object it was decoded from: every
/// member, known or not, comes back under its key with its value. What a
/// decoder returns is well formed.
pub proof fn implementation_decode_is_exact(j: Json, x: ImplementationView)
    requires
        Implementation::from_json(j) == Ok::<_, DecodeError>(x),
    ensures
        x.wf(),
        Implementation::to_json(x) == j,
{
    assert(x.members() =~= j->Object_0);
}

/// A member that is neither `name` nor `version` goes into `extra` as it is,
/// and is written back as it is.
pub proof fn implementation_keeps_unknown_members(
    obj: Map<Seq<char>, Json>,
    x: ImplementationView,
    key: Seq<char>,
)
    requires
        Implementation::from_json(Json::Object(obj)) == Ok::<_, DecodeError>(x),
        obj.contains_key(key),
        key != "name"@,
        key != "version"@,
    ensures
        x.extra.contains_key(key),
        x.extra[key] == obj[key],
        x.members().contains_key(key),
        x.members()[key] == obj[key],
{
}

/// An object is a roots capability exactly where its `listChanged`, if it
/// has one, is a boolean.
pub proof fn roots_accepts(obj: Map<Seq<char>, Json>)
    ensures
        RootsCapability::from_json(Json::Object(obj)) is Ok <==> (obj.contains_key(
            "listChanged"@,
        ) ==> obj["listChanged"@] is Bool),
{
}

/// Decoding what was encoded gives the roots capability back, extra members
/// included.
pub proof fn roots_round_trip(x: RootsCapabilityView)
    requires
        x.wf(),
    ensures
        RootsCapability::from_json(RootsCapability::to_json(x)) == Ok::<_, DecodeError>(x),
{
    assert(x.members().remove("listChanged"@) =~= x.extra);
}

/// A roots capability is encoded as the very object it was decoded from.
/// What a decoder returns is well formed.
pub proof fn roots_decode_is_exact(j: Json, x: RootsCapabilityView)
    requires
        RootsCapability::from_json(j) == Ok::<_, DecodeError>(x),
    ensures
        x.wf(),
        RootsCapability::to_json(x) == j,
{
    assert(x.members() =~= j->Object_0);
}

/// A member other than `listChanged` goes into `extra` as it is, and is
/// written back as it is.
pub proof fn roots_keeps_unknown_members(
    obj: Map<Seq<char>, Json>,
    x: RootsCapabilityView,
    key: Seq<char>,
)
    requires
        RootsCapability::from_json(Json::Object(obj)) == Ok::<_, DecodeError>(x),
        obj.contains_key(key),
        key != "listChanged"@,
    ensures
        x.extra.contains_key(key),
        x.extra[key] == obj[key],
        x.members().contains_key(key),
        x.members()[key] == obj[key],
{
}

/// The wire form of a well-formed roots capability has a `listChanged`
/// member exactly where the capability sets it, and an object decodes to a
/// capability that sets it exactly where the object has that member.
pub proof fn roots_list_changed_absent_is_omitted(
    x: RootsCapabilityView,
    obj: Map<Seq<char>, Json>,
)
    ensures
        x.wf() ==> (x.members().contains_key("listChanged"@) <==> x.list_changed is Some),
        RootsCapability::from_json(Json::Object(obj)) matches Ok(r) ==> (r.list_changed is Some
            <==> obj.contains_key("listChanged"@)),
{
}

/// An object is the capabilities of a client exactly where its
/// `experimental` and its `sampling`, if it has them, are objects, and its
/// `roots`, if it has one, is a roots capability.
pub proof fn capabilities_accepts(obj: Map<Seq<char>, Json>)
    ensures
        ClientCapabilities::from_json(Json::Object(obj)) is Ok <==> {
            &&& obj.contains_key("experimental"@) ==> obj["experimental"@] is Object
            &&& obj.contains_key("sampling"@) ==> obj["sampling"@] is Object
            &&& obj.contains_key("roots"@) ==> RootsCapability::from_json(obj["roots"@]) is Ok
        },
{
}

/// Decoding what was encoded gives the capabilities back.
pub proof fn capabilities_round_trip(c: ClientCapabilitiesView)
    requires
        c.wf(),
    ensures
        ClientCapabilities::from_json(ClientCapabilities::to_json(c)) == Ok::<_, DecodeError>(c),
{
    keys_differ();
    if let Some(r) = c.roots {
        roots_round_trip(r);
    }
}

/// What a decoder returns is well formed.
pub proof fn capabilities_decode_is_wf(j: Json, c: ClientCapabilitiesView)
    requires
        ClientCapabilities::from_json(j) == Ok::<_, DecodeError>(c),
    ensures
        c.wf(),
{
}

/// Encoding decoded capabilities gives back the object's members
/// `experimental`, `sampling` and `roots` as they were, with everything
/// inside them, and no other members.
pub proof fn capabilities_decode_keeps_members(
    obj: Map<Seq<char>, Json>,
    c: ClientCapabilitiesView,
)
    requires
        ClientCapabilities::from_json(Json::Object(obj)) == Ok::<_, DecodeError>(c),
    ensures
        c.members() == obj.restrict(set!["experimental"@, "sampling"@, "roots"@]),
{
    if let Some(r) = c.roots {
        roots_decode_is_exact(obj["roots"@], r);
    }
}

/// A capability is written exactly where it is declared, and always as an
/// object: one that is not declared gets no member, not a `null`.
pub proof fn capabilities_omit_what_is_absent(c: ClientCapabilitiesView)
    ensures
        c.members().contains_key("experimental"@) <==> c.experimental is Some,
        c.members().contains_key("sampling"@) <==> c.sampling is Some,
        c.members().contains_key("roots"@) <==> c.roots is Some,
        forall|key: Seq<char>| #[trigger]
            c.members().contains_key(key) ==> c.members()[key] is Object,
{
    keys_differ();
}

/// A capability is read as declared exactly where the object has its member.
pub proof fn capabilities_absent_when_omitted(obj: Map<Seq<char>, Json>, c: ClientCapabilitiesView)
    requires
        ClientCapabilities::from_json(Json::Object(obj)) == Ok::<_, DecodeError>(c),
    ensures
        c.experimental is Some <==> obj.contains_key("experimental"@),
        c.sampling is Some <==> obj.contains_key("sampling"@),
        c.roots is Some <==> obj.contains_key("roots"@),
{
}

/// The capabilities of a client that declares none are the empty object,
/// in both directions.
pub proof fn capabilities_of_none_are_the_empty_object()
    ensures
        ClientCapabilities::to_json(ClientCapabilitiesView::none()) == Json::Object(no_members()),
        ClientCapabilities::from_json(Json::Object(no_members())) == Ok::<_, DecodeError>(
            ClientCapabilitiesView::none(),
        ),
{
}

} // verus!
