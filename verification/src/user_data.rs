//! Which user data a machine is given.

use crate::discovery::Discovery;
use crate::machine::{DiscoveryInstructions, Machine};
use crate::reply::{generate_generic_error, generic_error, Fault, Reply, ReplyView};
use crate::template::{ResponseView, TemplateData, TemplateResponse};
use vstd::prelude::*;

verus! {

/// How a request for user data goes on.
#[derive(Debug)]
pub enum UserDataStep {
    /// It is answered.
    Answer(Reply),
    /// The machine is a DPU that is being taken into service: `user_data_handler` answers it, once
    /// the server has looked at its surroundings.
    Discover(Discovery),
}

/// A `UserDataStep` with its answer as plain text.
pub enum StepView {
    Answer(ReplyView),
    Discover(Discovery),
}

impl View for UserDataStep {
    type V = StepView;

    open spec fn view(&self) -> StepView {
        match self {
            UserDataStep::Answer(reply) => StepView::Answer(reply@),
            UserDataStep::Discover(discovery) => StepView::Discover(*discovery),
        }
    }
}

/// User data that is handed out as it is.
pub open spec fn assigned(user_data: Seq<char>) -> StepView {
    StepView::Answer(
        ReplyView {
            response: ResponseView {
                template_key: "user-data-assigned"@,
                template_data: map!["user_data"@ => user_data],
            },
            fault: None,
        },
    )
}

/// A machine that cannot be answered.
pub open spec fn refused(fault: Fault) -> StepView {
    StepView::Answer(ReplyView { response: generic_error(), fault: Some(fault) })
}

/// What is known of a DPU whose interface and domain the API server names.
pub open spec fn discovery_of(
    machine: Machine,
    instructions: DiscoveryInstructions,
    interface_id: String,
) -> Discovery {
    Discovery {
        machine_interface_id: interface_id,
        machine_interface: instructions.machine_interface->Some_0,
        domain: instructions.domain->Some_0,
        hbn_reps: instructions.hbn_reps,
        hbn_sfs: instructions.hbn_sfs,
        num_of_vfs: instructions.num_of_vfs,
        vf_intercept_bridge_name: instructions.vf_intercept_bridge_name,
        host_intercept_bridge_name: instructions.host_intercept_bridge_name,
        host_intercept_bridge_port: instructions.host_intercept_bridge_port,
        vf_intercept_bridge_port: instructions.vf_intercept_bridge_port,
        vf_intercept_bridge_sf: instructions.vf_intercept_bridge_sf,
        api_url_override: machine.instructions.api_url_override,
        pxe_url_override: machine.instructions.pxe_url_override,
    }
}

/// How a request for user data goes on.
pub open spec fn user_data_step(machine: Machine) -> StepView {
    match (machine.instructions.custom_cloud_init, machine.instructions.discovery_instructions) {
        (Some(custom_cloud_init), _) => assigned(custom_cloud_init@),
        (None, Some(instructions)) => match (instructions.machine_interface, instructions.domain) {
            (Some(interface), Some(_)) => match interface.id {
                Some(id) => StepView::Discover(discovery_of(machine, instructions, id)),
                None => refused(Fault::InterfaceIdMissing(interface)),
            },
            (interface, domain) => refused(Fault::InterfaceOrDomainMissing(interface, domain)),
        },
        (None, None) => assigned("{}"@),
    }
}

/// Whether the machine runs the discovery OS without being an instance, for which there is no user
/// data yet: the API server has nothing for it but metadata, and the instance id in that is the id
/// of a machine.
pub open spec fn runs_discovery_os(machine: Machine, instance_id_is_machine_id: bool) -> bool {
    &&& machine.instructions.custom_cloud_init is None
    &&& machine.instructions.discovery_instructions is None
    &&& machine.instructions.metadata is Some
    &&& instance_id_is_machine_id
}

/// Tells whether the machine runs the discovery OS without being an instance.
pub fn is_discovery_os(machine: &Machine, instance_id_is_machine_id: bool) -> (yes: bool)
    ensures
        yes == runs_discovery_os(*machine, instance_id_is_machine_id),
        yes <==> {
            &&& machine.instructions.custom_cloud_init is None
            &&& machine.instructions.discovery_instructions is None
            &&& machine.instructions.metadata is Some
            &&& instance_id_is_machine_id
        },
{
    machine.instructions.custom_cloud_init.is_none()
        && machine.instructions.discovery_instructions.is_none()
        && machine.instructions.metadata.is_some() && instance_id_is_machine_id
}

/// The answer that hands out user data as it is.
fn assign(user_data: String) -> (step: UserDataStep)
    ensures
        step@ == assigned(user_data@),
{
    let mut template_data = TemplateData::new();
    template_data.insert("user_data".to_string(), user_data);
    UserDataStep::Answer(
        Reply {
            response: TemplateResponse {
                template_key: "user-data-assigned".to_string(),
                template_data,
            },
            fault: None,
        },
    )
}

/// The answer to a machine that cannot be answered.
fn refuse(fault: Fault) -> (step: UserDataStep)
    ensures
        step@ == refused(fault),
{
    UserDataStep::Answer(Reply { response: generate_generic_error(), fault: Some(fault) })
}

/// Decides how a request for user data goes on. Custom cloud-init comes first, then the discovery
/// of a DPU; any other machine is an instance without user data of its own.
///
/// `instance_id_is_machine_id` says of the instance id in the machine's metadata whether it is the
/// id of a machine.
pub fn user_data(machine: Machine, instance_id_is_machine_id: bool) -> (step: UserDataStep)
    requires
        !runs_discovery_os(machine, instance_id_is_machine_id),
    ensures
        step@ == user_data_step(machine),
        machine.instructions.custom_cloud_init matches Some(text) ==> {
            &&& step matches UserDataStep::Answer(reply)
            &&& reply.response.template_key@ == "user-data-assigned"@
            &&& reply.response.template_data@.contains_key("user_data"@)
            &&& reply.response.template_data@["user_data"@] == text@
        },
{
    match machine.instructions.custom_cloud_init {
        Some(custom_cloud_init) => assign(custom_cloud_init),
        None => match machine.instructions.discovery_instructions {
            Some(instructions) => match (instructions.machine_interface, instructions.domain) {
                (Some(interface), Some(domain)) => match interface.id.clone() {
                    Some(id) => UserDataStep::Discover(
                        Discovery {
                            machine_interface_id: id,
                            machine_interface: interface,
                            domain,
                            hbn_reps: instructions.hbn_reps,
                            hbn_sfs: instructions.hbn_sfs,
                            num_of_vfs: instructions.num_of_vfs,
                            vf_intercept_bridge_name: instructions.vf_intercept_bridge_name,
                            host_intercept_bridge_name: instructions.host_intercept_bridge_name,
                            host_intercept_bridge_port: instructions.host_intercept_bridge_port,
                            vf_intercept_bridge_port: instructions.vf_intercept_bridge_port,
                            vf_intercept_bridge_sf: instructions.vf_intercept_bridge_sf,
                            api_url_override: machine.instructions.api_url_override,
                            pxe_url_override: machine.instructions.pxe_url_override,
                        },
                    ),
                    None => refuse(Fault::InterfaceIdMissing(interface)),
                },
                (interface, domain) => refuse(Fault::InterfaceOrDomainMissing(interface, domain)),
            },
            None => assign("{}".to_string()),
        },
    }
}

/// Custom cloud-init is handed out whatever else is known of the machine.
pub proof fn law_custom_cloud_init_comes_first(machine: Machine)
    requires
        machine.instructions.custom_cloud_init is Some,
    ensures
        user_data_step(machine) == assigned(machine.instructions.custom_cloud_init->Some_0@),
        !runs_discovery_os(machine, true),
{
}

/// Every machine that is refused gets the same answer, which tells nothing of the reason.
pub proof fn law_refusals_are_alike(machine: Machine)
    ensures
        user_data_step(machine) matches StepView::Answer(reply) ==> (reply.fault is Some
            <==> reply.response == generic_error()),
{
    reveal_strlit("error");
    reveal_strlit("user-data-assigned");
    assert("error"@.len() != "user-data-assigned"@.len());
}

/// A machine is refused if and only if it is to be discovered and its interface, the id of that or
/// its domain is missing.
pub proof fn law_refused_machines(machine: Machine)
    ensures
        ({
            let instructions = machine.instructions.discovery_instructions->Some_0;
            (user_data_step(machine) matches StepView::Answer(reply) && reply.fault is Some) <==> {
                &&& machine.instructions.custom_cloud_init is None
                &&& machine.instructions.discovery_instructions is Some
                &&& {
                    ||| instructions.machine_interface is None
                    ||| instructions.domain is None
                    ||| instructions.machine_interface->Some_0.id is None
                }
            }
        }),
{
}

/// Custom cloud-init is handed out character for character, under the one key of its template,
/// whatever else is known of the machine, and no fault is noted.
pub proof fn law_custom_cloud_init_is_handed_out_whole(machine: Machine)
    requires
        machine.instructions.custom_cloud_init is Some,
    ensures
        ({
            &&& user_data_step(machine) matches StepView::Answer(reply)
            &&& reply.fault is None
            &&& reply.response.template_key == "user-data-assigned"@
            &&& reply.response.template_data["user_data"@]
                == machine.instructions.custom_cloud_init->Some_0@
            &&& forall|key: Seq<char>| #[trigger]
                reply.response.template_data.contains_key(key) <==> key == "user_data"@
        }),
{
}

/// A machine with neither custom cloud-init nor instructions for discovery is handed out an empty
/// document as user data, and no fault is noted.
pub proof fn law_other_instances_get_an_empty_document(machine: Machine)
    requires
        machine.instructions.custom_cloud_init is None,
        machine.instructions.discovery_instructions is None,
    ensures
        ({
            &&& user_data_step(machine) matches StepView::Answer(reply)
            &&& reply.fault is None
            &&& reply.response.template_key == "user-data-assigned"@
            &&& reply.response.template_data["user_data"@] == seq!['{', '}']
            &&& forall|key: Seq<char>| #[trigger]
                reply.response.template_data.contains_key(key) <==> key == "user_data"@
        }),
{
    reveal_strlit("{}");
    assert("{}"@ =~= seq!['{', '}']);
}

/// A machine without custom cloud-init that is to be discovered, and whose interface, the id of that
/// and domain are known, is discovered: everything that its instructions say is carried over as it
/// is, and so are the URLs that are its own.
pub proof fn law_instructions_are_carried_over(machine: Machine)
    requires
        machine.instructions.custom_cloud_init is None,
        machine.instructions.discovery_instructions is Some,
        machine.instructions.discovery_instructions->Some_0.machine_interface is Some,
        machine.instructions.discovery_instructions->Some_0.machine_interface->Some_0.id is Some,
        machine.instructions.discovery_instructions->Some_0.domain is Some,
    ensures
        ({
            let instructions = machine.instructions.discovery_instructions->Some_0;
            &&& user_data_step(machine) matches StepView::Discover(discovery)
            &&& Some(discovery.machine_interface) == instructions.machine_interface
            &&& Some(discovery.machine_interface_id) == discovery.machine_interface.id
            &&& Some(discovery.domain) == instructions.domain
            &&& discovery.hbn_reps == instructions.hbn_reps
            &&& discovery.hbn_sfs == instructions.hbn_sfs
            &&& discovery.num_of_vfs == instructions.num_of_vfs
            &&& discovery.vf_intercept_bridge_name == instructions.vf_intercept_bridge_name
            &&& discovery.host_intercept_bridge_name == instructions.host_intercept_bridge_name
            &&& discovery.host_intercept_bridge_port == instructions.host_intercept_bridge_port
            &&& discovery.vf_intercept_bridge_port == instructions.vf_intercept_bridge_port
            &&& discovery.vf_intercept_bridge_sf == instructions.vf_intercept_bridge_sf
            &&& discovery.api_url_override == machine.instructions.api_url_override
            &&& discovery.pxe_url_override == machine.instructions.pxe_url_override
        }),
{
}

/// A refused machine is sent the one text of the error template. The fault that is noted holds what
/// was there: the interface where only its id is missing, else the interface and the domain as far as
/// they are known.
pub proof fn law_refusals_note_what_is_missing(machine: Machine)
    requires
        machine.instructions.custom_cloud_init is None,
        machine.instructions.discovery_instructions is Some,
    ensures
        ({
            let instructions = machine.instructions.discovery_instructions->Some_0;
            let interface = instructions.machine_interface;
            let domain = instructions.domain;
            let sends_error = |reply: ReplyView|
                {
                    &&& reply.response.template_key == "error"@
                    &&& reply.response.template_data["error"@]
                        == "An error occurred while rendering the request"@
                    &&& forall|key: Seq<char>| #[trigger]
                        reply.response.template_data.contains_key(key) <==> key == "error"@
                };
            &&& interface is None || domain is None ==> {
                &&& user_data_step(machine) matches StepView::Answer(reply)
                &&& sends_error(reply)
                &&& reply.fault == Some(Fault::InterfaceOrDomainMissing(interface, domain))
            }
            &&& interface is Some && domain is Some && interface->Some_0.id is None ==> {
                &&& user_data_step(machine) matches StepView::Answer(reply)
                &&& sends_error(reply)
                &&& reply.fault == Some(Fault::InterfaceIdMissing(interface->Some_0))
            }
        }),
{
}

/// What a request for user data comes to depends on the machine's custom cloud-init and, where there
/// is none, on its instructions for discovery and its own URLs; the metadata has no part in it.
pub proof fn law_metadata_has_no_part_in_user_data(machine: Machine, other: Machine)
    requires
        machine.instructions.custom_cloud_init == other.instructions.custom_cloud_init,
        machine.instructions.discovery_instructions == other.instructions.discovery_instructions,
        machine.instructions.api_url_override == other.instructions.api_url_override,
        machine.instructions.pxe_url_override == other.instructions.pxe_url_override,
    ensures
        user_data_step(machine) == user_data_step(other),
{
}

/// The discovery OS is recognised by four things together: no custom cloud-init, no instructions for
/// discovery, metadata, and an instance id in that which is the id of a machine.
pub proof fn law_discovery_os_is_recognised(machine: Machine, instance_id_is_machine_id: bool)
    ensures
        runs_discovery_os(machine, instance_id_is_machine_id) <==> !(
        machine.instructions.custom_cloud_init is Some
            || machine.instructions.discovery_instructions is Some
            || machine.instructions.metadata is None || !instance_id_is_machine_id),
{
}

/// What is said of a step is said of the step itself.
pub proof fn law_step_is_shown_as_it_is(step: UserDataStep)
    ensures
        match step {
            UserDataStep::Answer(reply) => step@ == StepView::Answer(reply@),
            UserDataStep::Discover(discovery) => step@ == StepView::Discover(discovery),
        },
{
}

} // verus!
