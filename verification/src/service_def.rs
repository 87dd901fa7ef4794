//! A service as the emitters read it: its name, and each operation's names, message, outcome and
//! HTTP binding, every type already described as a [`FieldDef`].
use crate::field_type::{FieldDef, Recorded};
use crate::text::{push_char, views};
use vstd::prelude::*;

verus! {

#[derive(Clone, Copy, PartialEq, Eq, Structural)]
pub enum HttpMethod {
    Get,
    Post,
    Put,
    Patch,
    Delete,
}

/// The method's name on the wire.
pub open spec fn method_name(method: HttpMethod) -> Seq<char> {
    match method {
        HttpMethod::Get => "GET"@,
        HttpMethod::Post => "POST"@,
        HttpMethod::Put => "PUT"@,
        HttpMethod::Patch => "PATCH"@,
        HttpMethod::Delete => "DELETE"@,
    }
}

/// Whether a request with this method carries its message as a body.
pub open spec fn carries_body(method: HttpMethod) -> bool {
    method == HttpMethod::Post || method == HttpMethod::Put || method == HttpMethod::Patch
}

impl HttpMethod {
    pub fn name(&self) -> (name: &'static str)
        ensures
            name@ == method_name(*self),
    {
        match self {
            HttpMethod::Get => "GET",
            HttpMethod::Post => "POST",
            HttpMethod::Put => "PUT",
            HttpMethod::Patch => "PATCH",
            HttpMethod::Delete => "DELETE",
        }
    }

    pub fn carries_a_body(&self) -> (carries: bool)
        ensures
            carries == carries_body(*self),
    {
        match self {
            HttpMethod::Post | HttpMethod::Put | HttpMethod::Patch => true,
            HttpMethod::Get | HttpMethod::Delete => false,
        }
    }
}

/// One piece of a path template: text matched as written, or a `{name}` placeholder.
pub enum PathSegment {
    Literal(String),
    Placeholder(String),
}

/// How an operation's body travels.
#[derive(Clone, Copy, PartialEq, Eq, Structural)]
pub enum BodyKind {
    Json,
    Bytes,
    Stream,
    Multipart,
}

/// A `header_in` binding, or a `part(...)` binding: the name on the wire, the Rust parameter it
/// binds, that parameter's type, and the Zod schema expression the type is checked against.
pub struct HeaderBinding {
    pub name: String,
    pub parameter: String,
    pub ty: FieldDef,
    pub schema: String,
}

/// An error variant mapped to its own status.
pub struct ErrorStatus {
    pub variant: String,
    pub code: u16,
}

/// An operation's `http(...)` binding.
pub struct HttpShape {
    pub method: HttpMethod,
    pub path: Vec<PathSegment>,
    pub body_kind: BodyKind,
    pub header_in: Vec<HeaderBinding>,
    /// The header names a successful reply carries beside its body, in declaration order.
    pub header_out: Vec<String>,
    /// The header names a declared error carries beside its body.
    pub error_header_out: Vec<String>,
    pub ok_status: u16,
    pub error_status: Vec<ErrorStatus>,
    pub multipart_parts: Vec<HeaderBinding>,
}

/// One argument of an operation whose message the macro declares: its Rust name, its key on the
/// wire, and its type.
pub struct InputField {
    pub ident: String,
    pub wire_key: String,
    pub ty: FieldDef,
}

/// What an operation takes beside its context.
pub enum OperationInputs {
    /// Nothing at all.
    Empty,
    /// An argument list, gathered into a message the macro declares.
    Generated(Vec<InputField>),
    /// A message the author declared.
    Named(FieldDef),
}

/// What an operation answers.
pub enum OperationOutcome {
    /// Nothing: the message is sent and no reply is expected.
    OneWay,
    /// A value, or a declared error.
    Reply { error: FieldDef, success: FieldDef },
}

pub struct OperationDef {
    /// The Rust method name, `snake_case`.
    pub ident: String,
    /// The TypeScript method name.
    pub ts_name: String,
    /// The operation's name on the wire.
    pub wire_name: String,
    /// The message the macro declared for this operation, where it declared one.
    pub generated_message: Option<String>,
    pub inputs: OperationInputs,
    /// Whether the message the author declared is itself one wire scalar, which a lone path
    /// placeholder then reads whole.
    pub scalar_message: bool,
    pub outcome: OperationOutcome,
    pub http: HttpShape,
}

pub struct ServiceDef {
    /// The trait's name.
    pub ident: String,
    pub operations: Vec<OperationDef>,
    /// The messages the macro declared for the service, in declaration order.
    pub generated_messages: Vec<String>,
    pub recorded: Recorded,
    /// The status a declared error answers with over HTTP where its operation mapped none of its
    /// own.
    pub default_error_status: u16,
}

/// Whether an operation answers nothing.
pub open spec fn one_way(operation: OperationDef) -> bool {
    operation.outcome is OneWay
}

/// The path template as declared: each placeholder written `{name}`.
pub open spec fn path_template(segments: Seq<PathSegment>) -> Seq<char>
    decreases segments.len(),
{
    if segments.len() == 0 {
        Seq::empty()
    } else {
        path_template(segments.drop_last()) + match segments.last() {
            PathSegment::Literal(text) => text@,
            PathSegment::Placeholder(name) => "{"@ + name@ + "}"@,
        }
    }
}

/// The names of the path's placeholders, in order.
pub open spec fn placeholder_names(segments: Seq<PathSegment>) -> Seq<Seq<char>>
    decreases segments.len(),
{
    if segments.len() == 0 {
        Seq::empty()
    } else {
        let before = placeholder_names(segments.drop_last());
        match segments.last() {
            PathSegment::Literal(_) => before,
            PathSegment::Placeholder(name) => before.push(name@),
        }
    }
}

impl HttpShape {
    pub fn path_template(&self) -> (template: String)
        ensures
            template@ == path_template(self.path@),
    {
        let mut template = String::new();
        let mut i: usize = 0;
        while i < self.path.len()
            invariant
                0 <= i <= self.path.len(),
                template@ == path_template(self.path@.take(i as int)),
            decreases self.path.len() - i,
        {
            assert(self.path@.take(i + 1).drop_last() =~= self.path@.take(i as int));
            match &self.path[i] {
                PathSegment::Literal(text) => template.append(text.as_str()),
                PathSegment::Placeholder(name) => {
                    push_char(&mut template, '{');
                    template.append(name.as_str());
                    push_char(&mut template, '}');
                    assert(seq!['{'] =~= "{"@) by {
                        reveal_strlit("{");
                    }
                    assert(seq!['}'] =~= "}"@) by {
                        reveal_strlit("}");
                    }
                },
            }
            i += 1;
        }
        assert(self.path@.take(self.path.len() as int) =~= self.path@);
        template
    }

    pub fn placeholder_names(&self) -> (names: Vec<String>)
        ensures
            views(names@) == placeholder_names(self.path@),
    {
        let mut names: Vec<String> = Vec::new();
        let mut i: usize = 0;
        while i < self.path.len()
            invariant
                0 <= i <= self.path.len(),
                views(names@) == placeholder_names(self.path@.take(i as int)),
            decreases self.path.len() - i,
        {
            assert(self.path@.take(i + 1).drop_last() =~= self.path@.take(i as int));
            match &self.path[i] {
                PathSegment::Literal(_) => {},
                PathSegment::Placeholder(name) => {
                    names.push(name.clone());
                    assert(views(names@) =~= placeholder_names(self.path@.take(i as int)).push(
                        name@,
                    ));
                },
            }
            i += 1;
        }
        assert(self.path@.take(self.path.len() as int) =~= self.path@);
        names
    }
}

/// Whether any of `operations` answers nothing.
pub open spec fn any_one_way(operations: Seq<OperationDef>) -> bool {
    exists|i: int| 0 <= i < operations.len() && one_way(#[trigger] operations[i])
}

pub fn has_one_way(service: &ServiceDef) -> (found: bool)
    ensures
        found == any_one_way(service.operations@),
{
    let mut i: usize = 0;
    while i < service.operations.len()
        invariant
            0 <= i <= service.operations.len(),
            forall|j: int| 0 <= j < i ==> !one_way(#[trigger] service.operations@[j]),
        decreases service.operations.len() - i,
    {
        if let OperationOutcome::OneWay = service.operations[i].outcome {
            return true;
        }
        i += 1;
    }
    false
}

/// Whether any of `operations` carries its body in a given way.
pub open spec fn any_body(operations: Seq<OperationDef>, kind: BodyKind) -> bool {
    exists|i: int| 0 <= i < operations.len() && (#[trigger] operations[i]).http.body_kind == kind
}

pub fn declares_body(service: &ServiceDef, kind: BodyKind) -> (found: bool)
    ensures
        found == any_body(service.operations@, kind),
{
    let mut i: usize = 0;
    while i < service.operations.len()
        invariant
            0 <= i <= service.operations.len(),
            forall|j: int|
                0 <= j < i ==> (#[trigger] service.operations@[j]).http.body_kind != kind,
        decreases service.operations.len() - i,
    {
        if service.operations[i].http.body_kind == kind {
            return true;
        }
        i += 1;
    }
    false
}

/// The first of `fields` whose Rust name is `name`.
pub open spec fn input_named(fields: Seq<InputField>, name: Seq<char>) -> Option<InputField>
    decreases fields.len(),
{
    if fields.len() == 0 {
        None
    } else if fields[0].ident@ == name {
        Some(fields[0])
    } else {
        input_named(fields.drop_first(), name)
    }
}

pub fn find_input<'a>(fields: &'a Vec<InputField>, name: &str) -> (found: Option<&'a InputField>)
    ensures
        match found {
            Some(field) => input_named(fields@, name@) == Some(*field),
            None => input_named(fields@, name@) is None,
        },
{
    let owned = name.to_owned();
    let mut i: usize = 0;
    assert(fields@.skip(0) =~= fields@);
    while i < fields.len()
        invariant
            0 <= i <= fields.len(),
            owned@ == name@,
            input_named(fields@.skip(i as int), name@) == input_named(fields@, name@),
        decreases fields.len() - i,
    {
        assert(fields@.skip(i as int)[0] == fields@[i as int]);
        assert(fields@.skip(i as int).drop_first() =~= fields@.skip(i + 1));
        if fields[i].ident == owned {
            return Some(&fields[i]);
        }
        i += 1;
    }
    assert(fields@.skip(i as int).len() == 0);
    None
}

} // verus!
