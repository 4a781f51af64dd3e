//! The answers that need nothing but the machine's own record.

use crate::machine::{Machine, MachineInterface, PxeDomain};
use crate::template::{ResponseView, TemplateData, TemplateResponse};
use vstd::prelude::*;

verus! {

/// What is missing in the record of a machine that cannot be answered.
#[derive(Debug)]
pub enum Fault {
    /// The interface has no id.
    InterfaceIdMissing(MachineInterface),
    /// The interface or the domain is missing, or both are.
    InterfaceOrDomainMissing(Option<MachineInterface>, Option<PxeDomain>),
    /// There is no metadata.
    MetadataMissing(Machine),
}

/// An answer, and the fault to be noted where the machine could not be given what it asked for.
#[derive(Debug)]
pub struct Reply {
    pub response: TemplateResponse,
    pub fault: Option<Fault>,
}

/// A `Reply` as plain text with its fault.
pub struct ReplyView {
    pub response: ResponseView,
    pub fault: Option<Fault>,
}

impl View for Reply {
    type V = ReplyView;

    open spec fn view(&self) -> ReplyView {
        ReplyView { response: self.response@, fault: self.fault }
    }
}

/// The answer to a machine that cannot be given what it asked for. It tells nothing of the reason.
pub open spec fn generic_error() -> ResponseView {
    ResponseView {
        template_key: "error"@,
        template_data: map!["error"@ => "An error occurred while rendering the request"@],
    }
}

/// Generates the generic error that is sent back whatever went wrong.
pub fn generate_generic_error() -> (response: TemplateResponse)
    ensures
        response@ == generic_error(),
        response.template_key@ == "error"@,
{
    let mut template_data = TemplateData::new();
    template_data.insert(
        "error".to_string(),
        "An error occurred while rendering the request".to_string(),
    );
    TemplateResponse { template_key: "error".to_string(), template_data }
}

/// The answer to a request for the metadata of a machine.
pub open spec fn meta_data_reply(machine: Machine) -> ReplyView {
    match machine.instructions.metadata {
        None => ReplyView { response: generic_error(), fault: Some(Fault::MetadataMissing(machine)) },
        Some(metadata) => ReplyView {
            response: ResponseView {
                template_key: "meta-data"@,
                template_data: map![
                    "instance_id"@ => metadata.instance_id@,
                    "cloud_name"@ => metadata.cloud_name@,
                    "platform"@ => metadata.platform@,
                ],
            },
            fault: None,
        },
    }
}

/// Answers a request for the metadata of a machine.
pub fn meta_data(machine: Machine) -> (reply: Reply)
    ensures
        reply@ == meta_data_reply(machine),
{
    if machine.instructions.metadata.is_none() {
        return Reply {
            response: generate_generic_error(),
            fault: Some(Fault::MetadataMissing(machine)),
        };
    }
    let mut template_data = TemplateData::new();
    match machine.instructions.metadata {
        Some(metadata) => {
            template_data.insert("instance_id".to_string(), metadata.instance_id);
            template_data.insert("cloud_name".to_string(), metadata.cloud_name);
            template_data.insert("platform".to_string(), metadata.platform);
        },
        None => {},
    }
    Reply {
        response: TemplateResponse { template_key: "meta-data".to_string(), template_data },
        fault: None,
    }
}

/// The answer to a request for vendor data, which is the same for all machines.
pub open spec fn vendor_data_response() -> ResponseView {
    ResponseView { template_key: "printcontext"@, template_data: Map::empty() }
}

/// Answers a request for vendor data.
pub fn vendor_data() -> (response: TemplateResponse)
    ensures
        response@ == vendor_data_response(),
{
    TemplateResponse {
        template_key: "printcontext".to_string(),
        template_data: TemplateData::new(),
    }
}

/// Metadata is told in three texts and nothing else.
pub proof fn law_meta_data_is_told(machine: Machine)
    requires
        machine.instructions.metadata is Some,
    ensures
        ({
            let data = meta_data_reply(machine).response.template_data;
            let metadata = machine.instructions.metadata->Some_0;
            &&& meta_data_reply(machine).fault is None
            &&& data.dom() == set!["instance_id"@, "cloud_name"@, "platform"@]
            &&& data["instance_id"@] == metadata.instance_id@
            &&& data["cloud_name"@] == metadata.cloud_name@
            &&& data["platform"@] == metadata.platform@
        }),
{
    reveal_strlit("instance_id");
    reveal_strlit("cloud_name");
    reveal_strlit("platform");
    assert("instance_id"@.len() == 11 && "cloud_name"@.len() == 10 && "platform"@.len() == 8);
    let data = meta_data_reply(machine).response.template_data;
    assert(data.dom() =~= set!["instance_id"@, "cloud_name"@, "platform"@]);
}

/// A machine without metadata gets the generic error, and no other machine does.
pub proof fn law_meta_data_is_refused(machine: Machine)
    ensures
        meta_data_reply(machine).fault is Some <==> machine.instructions.metadata is None,
        meta_data_reply(machine).response == generic_error() <==> machine.instructions.metadata
            is None,
{
    reveal_strlit("error");
    reveal_strlit("meta-data");
    assert("error"@.len() != "meta-data"@.len());
}

/// The generic error is rendered from its own template and one text, which is the same for all
/// machines and reasons.
pub proof fn law_generic_error_has_one_text()
    ensures
        generic_error().template_key == "error"@,
        generic_error().template_data["error"@] == "An error occurred while rendering the request"@,
        forall|key: Seq<char>| #[trigger]
            generic_error().template_data.contains_key(key) <==> key == "error"@,
{
}

/// Metadata is rendered from its own template, and is told as it is given: each of the three texts
/// depends on nothing but the field that it tells. Where there is none, the machine itself is noted.
pub proof fn law_meta_data_is_told_as_given(machine: Machine)
    ensures
        match machine.instructions.metadata {
            Some(metadata) => {
                let reply = meta_data_reply(machine);
                let data = reply.response.template_data;
                &&& reply.fault is None
                &&& reply.response.template_key == "meta-data"@
                &&& data["instance_id"@] == metadata.instance_id@
                &&& data["cloud_name"@] == metadata.cloud_name@
                &&& data["platform"@] == metadata.platform@
                &&& forall|key: Seq<char>| #[trigger]
                    data.contains_key(key) <==> key == "instance_id"@ || key == "cloud_name"@ || key
                        == "platform"@
            },
            None => {
                let reply = meta_data_reply(machine);
                &&& reply.fault == Some(Fault::MetadataMissing(machine))
                &&& reply.response.template_key == "error"@
                &&& reply.response.template_data["error"@]
                    == "An error occurred while rendering the request"@
                &&& forall|key: Seq<char>| #[trigger]
                    reply.response.template_data.contains_key(key) <==> key == "error"@
            },
        },
{
    reveal_strlit("instance_id");
    reveal_strlit("cloud_name");
    reveal_strlit("platform");
    assert("instance_id"@.len() == 11 && "cloud_name"@.len() == 10 && "platform"@.len() == 8);
}

/// Vendor data is rendered from its own template and no texts.
pub proof fn law_vendor_data_is_rendered_from_nothing()
    ensures
        vendor_data_response().template_key == "printcontext"@,
        forall|key: Seq<char>| !(#[trigger] vendor_data_response().template_data.contains_key(key)),
{
}

/// What is said of a reply is said of the reply itself.
pub proof fn law_reply_is_shown_as_it_is(reply: Reply)
    ensures
        reply@.response.template_key == reply.response.template_key@,
        reply@.response.template_data == reply.response.template_data@,
        reply@.fault == reply.fault,
{
}

} // verus!
