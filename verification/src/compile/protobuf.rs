//! The compiler from declared messages and services to a protobuf file.

use crate::protobuf::{ProtobufField, ProtobufMethod, ProtobufSchema, ProtobufService};
use crate::schema::{Model, Role};
use crate::text::{decimal, push_u64};
use crate::unicode::{trim, trimmed};
use vstd::prelude::*;
use vstd::string::StringExecFns;

verus! {

/// The head of every file: syntax, package, and the import that
/// `google.protobuf.Timestamp` needs.
pub open spec fn header_text() -> Seq<char> {
    "syntax = \"proto3\";\n"@ + "\n"@ + "package app;\n"@ + "\n"@
        + "import \"google/protobuf/timestamp.proto\";\n"@
}

/// The line of a field: `optional` unless the field is required, its type,
/// its name and its number, which is one more than its position.
pub open spec fn field_text(field: ProtobufField, index: nat) -> Seq<char> {
    (if field.required {
        Seq::empty()
    } else {
        "optional "@
    }) + field.ty.name() + " "@ + field.name@ + " = "@ + decimal(index + 1) + ";"@
}

/// The lines of the first `n` fields of a message, each indented.
pub open spec fn field_lines(fields: Seq<ProtobufField>, n: nat) -> Seq<char>
    decreases n,
{
    if n == 0 {
        Seq::empty()
    } else {
        field_lines(fields, (n - 1) as nat) + "  "@ + field_text(fields[n - 1], (n - 1) as nat)
            + "\n"@
    }
}

/// The block of a message.
pub open spec fn message_text(message: ProtobufSchema) -> Seq<char> {
    "message "@ + message.name@ + " {\n"@ + field_lines(message.fields@, message.fields@.len())
        + "}\n"@
}

/// The line of a method.
pub open spec fn method_text(method: ProtobufMethod) -> Seq<char> {
    "rpc "@ + method.name@ + "("@ + method.param.name@ + ") returns ("@ + method.returns.name@
        + ");\n"@
}

/// The lines of the first `n` methods of a service, each indented.
pub open spec fn method_lines(methods: Seq<ProtobufMethod>, n: nat) -> Seq<char>
    decreases n,
{
    if n == 0 {
        Seq::empty()
    } else {
        method_lines(methods, (n - 1) as nat) + "  "@ + method_text(methods[n - 1])
    }
}

/// The block of a service.
pub open spec fn service_text(service: ProtobufService) -> Seq<char> {
    "service "@ + service.name@ + " {\n"@ + method_lines(service.methods@, service.methods@.len())
        + "}\n"@
}

/// The messages among the roles of a model, each with the model.
pub open spec fn role_messages(model: Model, roles: Seq<Role>) -> Seq<(Model, ProtobufSchema)>
    decreases roles.len(),
{
    if roles.len() == 0 {
        Seq::empty()
    } else {
        role_messages(model, roles.drop_last()) + (match roles.last() {
            Role::ProtobufMessage(message) => seq![(model, message)],
            _ => Seq::empty(),
        })
    }
}

/// The messages that the models declare: each role `ProtobufMessage`, in
/// the order of the models and of their roles, with its model.
pub open spec fn declared_messages(models: Seq<Model>) -> Seq<(Model, ProtobufSchema)>
    decreases models.len(),
{
    if models.len() == 0 {
        Seq::empty()
    } else {
        declared_messages(models.drop_last()) + role_messages(models.last(), models.last().roles@)
    }
}

/// The blocks of the first `n` messages, an empty line after each.
pub open spec fn message_blocks(messages: Seq<(Model, ProtobufSchema)>, n: nat) -> Seq<char>
    decreases n,
{
    if n == 0 {
        Seq::empty()
    } else {
        message_blocks(messages, (n - 1) as nat) + message_text(messages[n - 1].1) + "\n"@
    }
}

/// The blocks of the first `n` services, an empty line after each.
pub open spec fn service_blocks(services: Seq<ProtobufService>, n: nat) -> Seq<char>
    decreases n,
{
    if n == 0 {
        Seq::empty()
    } else {
        service_blocks(services, (n - 1) as nat) + service_text(services[n - 1]) + "\n"@
    }
}

/// The protobuf file: the head, the messages, the services, an empty line
/// between each two, and no white space at either end.
pub open spec fn file_text(models: Seq<Model>, services: Seq<ProtobufService>) -> Seq<char> {
    let messages = declared_messages(models);
    trimmed(
        header_text() + "\n"@ + message_blocks(messages, messages.len()) + service_blocks(
            services,
            services.len(),
        ),
    )
}

/// The pairs of a list of references, as values.
pub open spec fn message_pairs(messages: Seq<(&Model, &ProtobufSchema)>) -> Seq<
    (Model, ProtobufSchema),
> {
    messages.map_values(|p: (&Model, &ProtobufSchema)| (*p.0, *p.1))
}

/// Compiles declared messages and services to a protobuf file.
pub struct ProtobufCompiler {
    pub models: Vec<Model>,
    pub services: Vec<ProtobufService>,
}

impl ProtobufCompiler {
    /// A compiler for these models and services.
    pub fn new(models: Vec<Model>, services: Vec<ProtobufService>) -> (compiler: ProtobufCompiler)
        ensures
            compiler.models == models,
            compiler.services == services,
    {
        ProtobufCompiler { models, services }
    }

    /// The protobuf file of the models and services.
    pub fn compile_file(&self) -> (proto: String)
        ensures
            proto@ == file_text(self.models@, self.services@),
    {
        let mut proto = String::new();
        let header = self.write_protobuf_header();
        proto.append(header.as_str());
        proto.append("\n");
        let ghost head = proto@;
        assert(head =~= header_text() + "\n"@);
        let messages = self.all_protobuf_messages();
        let ghost declared = declared_messages(self.models@);
        let n = messages.len();
        let mut i: usize = 0;
        while i < n
            invariant
                i <= n,
                n == messages.len(),
                n == declared.len(),
                declared == declared_messages(self.models@),
                forall|k: int| 0 <= k < n ==> *messages@[k] == declared[k].1,
                proto@ == head + message_blocks(declared, i as nat),
            decreases n - i,
        {
            let text = self.write_protobuf_message(messages[i]);
            proto.append(text.as_str());
            proto.append("\n");
            i = i + 1;
            assert(proto@ =~= head + message_blocks(declared, i as nat));
        }
        let ghost body = proto@;
        let m = self.services.len();
        let mut j: usize = 0;
        while j < m
            invariant
                j <= m,
                m == self.services.len(),
                proto@ == body + service_blocks(self.services@, j as nat),
            decreases m - j,
        {
            let text = self.write_protobuf_service(&self.services[j]);
            proto.append(text.as_str());
            proto.append("\n");
            j = j + 1;
            assert(proto@ =~= body + service_blocks(self.services@, j as nat));
        }
        assert(proto@ =~= header_text() + "\n"@ + message_blocks(declared, declared.len())
            + service_blocks(self.services@, self.services@.len()));
        String::from_str(trim(proto.as_str()))
    }

    /// The messages that the models declare, each with its model.
    pub fn protobuf_messages(&self) -> (messages: Vec<(&Model, &ProtobufSchema)>)
        ensures
            message_pairs(messages@) == declared_messages(self.models@),
    {
        let mut messages: Vec<(&Model, &ProtobufSchema)> = Vec::new();
        let n = self.models.len();
        let mut i: usize = 0;
        assert(message_pairs(messages@) =~= Seq::empty());
        while i < n
            invariant
                i <= n,
                n == self.models.len(),
                message_pairs(messages@) == declared_messages(self.models@.take(i as int)),
            decreases n - i,
        {
            let model = &self.models[i];
            let ghost before = message_pairs(messages@);
            let m = model.roles.len();
            let mut j: usize = 0;
            while j < m
                invariant
                    j <= m,
                    m == model.roles.len(),
                    message_pairs(messages@) == before + role_messages(
                        *model,
                        model.roles@.take(j as int),
                    ),
                decreases m - j,
            {
                let ghost old_messages = messages@;
                proof {
                    assert(model.roles@.take(j + 1).drop_last() =~= model.roles@.take(j as int));
                }
                match &model.roles[j] {
                    Role::ProtobufMessage(message) => {
                        messages.push((model, message));
                        assert(message_pairs(messages@) =~= message_pairs(old_messages).push(
                            (*model, *message),
                        ));
                    },
                    _ => {},
                }
                j = j + 1;
                assert(message_pairs(messages@) =~= before + role_messages(
                    *model,
                    model.roles@.take(j as int),
                ));
            }
            proof {
                assert(model.roles@.take(m as int) =~= model.roles@);
                assert(self.models@.take(i + 1).drop_last() =~= self.models@.take(i as int));
            }
            i = i + 1;
        }
        assert(self.models@.take(n as int) =~= self.models@);
        messages
    }

    /// The messages that the models declare.
    pub fn all_protobuf_messages(&self) -> (messages: Vec<&ProtobufSchema>)
        ensures
            messages@.len() == declared_messages(self.models@).len(),
            forall|k: int|
                0 <= k < messages@.len() ==> *messages@[k] == declared_messages(self.models@)[k].1,
    {
        let pairs = self.protobuf_messages();
        let ghost declared = declared_messages(self.models@);
        let mut messages: Vec<&ProtobufSchema> = Vec::new();
        let n = pairs.len();
        let mut i: usize = 0;
        while i < n
            invariant
                i <= n,
                n == pairs.len(),
                message_pairs(pairs@) == declared,
                messages@.len() == i,
                forall|k: int| 0 <= k < i ==> *messages@[k] == declared[k].1,
            decreases n - i,
        {
            assert(message_pairs(pairs@)[i as int] == (*pairs@[i as int].0, *pairs@[i as int].1));
            messages.push(pairs[i].1);
            i = i + 1;
        }
        assert(message_pairs(pairs@).len() == n);
        messages
    }

    /// The head of the file.
    pub fn write_protobuf_header(&self) -> (proto: String)
        ensures
            proto@ == header_text(),
    {
        let mut proto = String::new();
        proto.append("syntax = \"proto3\";\n");
        proto.append("\n");
        proto.append("package app;\n");
        proto.append("\n");
        proto.append("import \"google/protobuf/timestamp.proto\";\n");
        assert(proto@ =~= header_text());
        proto
    }

    /// The block of a message.
    pub fn write_protobuf_message(&self, message: &ProtobufSchema) -> (proto: String)
        ensures
            proto@ == message_text(*message),
    {
        let mut proto = String::new();
        proto.append("message ");
        proto.append(message.name.as_str());
        proto.append(" {\n");
        let ghost head = proto@;
        let n = message.fields.len();
        let mut i: usize = 0;
        while i < n
            invariant
                i <= n,
                n == message.fields.len(),
                head == "message "@ + message.name@ + " {\n"@,
                proto@ == head + field_lines(message.fields@, i as nat),
            decreases n - i,
        {
            let text = self.write_protobuf_field(&message.fields[i], i);
            proto.append("  ");
            proto.append(text.as_str());
            proto.append("\n");
            i = i + 1;
            assert(proto@ =~= head + field_lines(message.fields@, i as nat));
        }
        proto.append("}\n");
        assert(proto@ =~= message_text(*message));
        proto
    }

    /// The line of the field at position `index`.
    pub fn write_protobuf_field(&self, field: &ProtobufField, index: usize) -> (proto: String)
        requires
            index < usize::MAX,
        ensures
            proto@ == field_text(*field, index as nat),
    {
        let mut proto = String::new();
        if !field.required {
            proto.append("optional ");
        }
        field.ty.write(&mut proto);
        proto.append(" ");
        proto.append(field.name.as_str());
        proto.append(" = ");
        push_u64(&mut proto, (index + 1) as u64);
        proto.append(";");
        assert(proto@ =~= field_text(*field, index as nat));
        proto
    }

    /// The block of a service.
    pub fn write_protobuf_service(&self, service: &ProtobufService) -> (proto: String)
        ensures
            proto@ == service_text(*service),
    {
        let mut proto = String::new();
        proto.append("service ");
        proto.append(service.name.as_str());
        proto.append(" {\n");
        let ghost head = proto@;
        let n = service.methods.len();
        let mut i: usize = 0;
        while i < n
            invariant
                i <= n,
                n == service.methods.len(),
                head == "service "@ + service.name@ + " {\n"@,
                proto@ == head + method_lines(service.methods@, i as nat),
            decreases n - i,
        {
            let text = self.write_protobuf_method(&service.methods[i]);
            proto.append("  ");
            proto.append(text.as_str());
            i = i + 1;
            assert(proto@ =~= head + method_lines(service.methods@, i as nat));
        }
        proto.append("}\n");
        assert(proto@ =~= service_text(*service));
        proto
    }

    /// The line of a method.
    pub fn write_protobuf_method(&self, method: &ProtobufMethod) -> (proto: String)
        ensures
            proto@ == method_text(*method),
    {
        let mut proto = String::new();
        proto.append("rpc ");
        proto.append(method.name.as_str());
        proto.append("(");
        proto.append(method.param.name.as_str());
        proto.append(") returns (");
        proto.append(method.returns.name.as_str());
        proto.append(");\n");
        assert(proto@ =~= method_text(*method));
        proto
    }
}

} // verus!
