//! What holds of the lifecycle as a whole, proved from the definitions of the
//! session and the channel.
use vstd::prelude::*;
use vstd::utf8::encode_utf8;
use crate::address::Cidr;
use crate::attr::{attr, lemma_attr_len, text};
use crate::channel::{all_unmatched, lemma_unmatched_gives_no_verdict, scan, ChannelState, Reply};
use crate::command::{
    addconf, genkey, interface_config, lemma_trimmed_core, lemma_trimmed_edges, link_del, pubkey,
    route_add, trimmed, utf8_lossy, white_space,
};
use crate::error::{ErrorModel, WgError, EACCES, EEXIST, ENODEV, EPERM};
use crate::link::{
    add_address, create_link, find_link, ifinfo, lemma_flag_words, link_kind, set_up,
    CREATE_FLAGS, MAX_NAME_LEN,
};
use crate::message::{error_code_at, framed_at, header_at, lemma_frame_header, link_index_at};
use crate::session::{ActionModel, EventModel, Goal, LinkState, Phase, SessionModel, StepModel};
use crate::wg::{KeygenModel, KeygenStepModel, KeypairModel};
use crate::wire::{
    HEADER_LEN, IFLA_IFNAME, IFLA_INFO_KIND, IFLA_LINKINFO, NLMSG_ERROR, NLM_F_ACK, NLM_F_CREATE,
    NLM_F_EXCL, RTM_NEWLINK,
};

verus! {

/// The datagram starts with the kernel's acknowledgement or error message
/// for the request numbered `seq`, carrying `code`.
pub open spec fn carries_code(datagram: Seq<u8>, seq: u32, code: i32) -> bool {
    &&& framed_at(datagram, 0)
    &&& header_at(datagram, 0).seq == seq
    &&& header_at(datagram, 0).kind == NLMSG_ERROR
    &&& header_at(datagram, 0).len >= HEADER_LEN + 4
    &&& error_code_at(datagram, 0) == code
}

/// The datagram starts with a link message for the request numbered `seq`,
/// describing the link with the given index.
pub open spec fn carries_link(datagram: Seq<u8>, seq: u32, index: u32) -> bool {
    &&& framed_at(datagram, 0)
    &&& header_at(datagram, 0).seq == seq
    &&& header_at(datagram, 0).kind == RTM_NEWLINK
    &&& header_at(datagram, 0).len >= HEADER_LEN + 8
    &&& link_index_at(datagram, 0) == index
}

/// The step that follows `step` on `event`: the session's next step while
/// the operation goes on, and `step` itself once it has ended.
pub open spec fn after(step: StepModel, event: EventModel) -> StepModel {
    match step {
        StepModel::Next(session, _) => session.resume(event),
        _ => step,
    }
}

/// The step asks for `action` and the operation goes on.
pub open spec fn asks(step: StepModel, action: ActionModel) -> bool {
    step matches StepModel::Next(_, asked) && asked == action
}

/// The session is in the middle of an exchange: its step is one, and the
/// answer to its last request is awaited.
pub open spec fn exchanging(session: SessionModel) -> bool {
    session.phase.is_exchange() && session.channel.state == ChannelState::Awaiting
}

/// A message for the outstanding request decides the exchange: code 0
/// acknowledges, any other code rejects with that code, and a link message
/// answers with the link's index.
pub proof fn lemma_verdicts(datagram: Seq<u8>, seq: u32, code: i32, index: u32)
    ensures
        carries_code(datagram, seq, 0) ==> scan(datagram, 0, seq) == Some(
            Ok::<Reply, WgError>(Reply::Ack),
        ),
        carries_code(datagram, seq, code) && code != 0 ==> scan(datagram, 0, seq) == Some(
            Err::<Reply, WgError>(WgError::KernelRejected { code }),
        ),
        carries_link(datagram, seq, index) ==> scan(datagram, 0, seq) == Some(
            Ok::<Reply, WgError>(Reply::Link { index }),
        ),
{
}

/// A response whose sequence number is not that of the outstanding request
/// is ignored: the session stays as it is and asks for more to be read. Once
/// the wait runs out, the operation fails with `MalformedResponse`.
pub proof fn lemma_unmatched_response_is_ignored(session: SessionModel, datagram: Seq<u8>)
    requires
        exchanging(session),
        all_unmatched(datagram, 0, session.channel.seq),
    ensures
        session.resume(EventModel::Datagram(datagram)) == StepModel::Next(
            session,
            ActionModel::Receive,
        ),
        session.resume(EventModel::Timeout) == (StepModel::Failed {
            state: session.state,
            error: ErrorModel::MalformedResponse,
        }),
{
    lemma_unmatched_gives_no_verdict(datagram, 0, session.channel.seq);
}

/// The request that creates a link tells the kernel to create it, to refuse
/// if it exists, and to acknowledge; and where the kernel refuses because the
/// link exists, as it does when the same name is created a second time, the
/// operation fails with `LinkExists`.
pub proof fn lemma_second_create_is_link_exists(
    session: SessionModel,
    datagram: Seq<u8>,
    name: Seq<u8>,
    seq: u32,
)
    requires
        exchanging(session),
        session.phase == Phase::Creating,
        carries_code(datagram, session.channel.seq, (-EEXIST) as i32),
        name.len() <= MAX_NAME_LEN,
    ensures
        header_at(create_link(name, seq), 0).flags == CREATE_FLAGS,
        CREATE_FLAGS & NLM_F_EXCL == NLM_F_EXCL,
        CREATE_FLAGS & NLM_F_CREATE == NLM_F_CREATE,
        CREATE_FLAGS & NLM_F_ACK == NLM_F_ACK,
        session.resume(EventModel::Datagram(datagram)) == (StepModel::Failed {
            state: session.state,
            error: ErrorModel::LinkExists,
        }),
{
    lemma_flag_words();
    lemma_request_header(name, seq);
    lemma_verdicts(datagram, session.channel.seq, (-EEXIST) as i32, 0);
}

/// The header of the request that creates a link: its type, its flags and
/// its sequence number.
pub proof fn lemma_request_header(name: Seq<u8>, seq: u32)
    requires
        name.len() <= MAX_NAME_LEN,
    ensures
        framed_at(create_link(name, seq), 0),
        header_at(create_link(name, seq), 0).kind == RTM_NEWLINK,
        header_at(create_link(name, seq), 0).flags == CREATE_FLAGS,
        header_at(create_link(name, seq), 0).seq == seq,
{
    let kind = attr(IFLA_INFO_KIND, text(link_kind()));
    let body = ifinfo(0, 0, 0) + attr(IFLA_IFNAME, text(name)) + attr(IFLA_LINKINFO, kind);
    lemma_attr_len(IFLA_IFNAME, text(name));
    lemma_attr_len(IFLA_INFO_KIND, text(link_kind()));
    lemma_attr_len(IFLA_LINKINFO, kind);
    lemma_frame_header(RTM_NEWLINK, CREATE_FLAGS, seq, body);
}

/// Where the link was never created, giving it an address or raising it
/// fails with `LinkNotFound`: the lookup that comes first is answered with
/// "no such device", or with an acknowledgement that names no link, and the
/// request that would act on the link is never made.
pub proof fn lemma_missing_link_is_not_found(session: SessionModel, datagram: Seq<u8>)
    requires
        exchanging(session),
        session.phase.is_lookup(),
        carries_code(datagram, session.channel.seq, (-ENODEV) as i32) || carries_code(
            datagram,
            session.channel.seq,
            0,
        ),
    ensures
        session.resume(EventModel::Datagram(datagram)) == (StepModel::Failed {
            state: session.state,
            error: ErrorModel::LinkNotFound,
        }),
{
    lemma_verdicts(datagram, session.channel.seq, (-ENODEV) as i32, 0);
}

/// A code with which the kernel rejects a request means something of its own
/// in three places only: missing privilege and "exists" where the link is
/// being created, and "no such device" where it is being looked up. Everywhere
/// else the operation fails with `KernelRejected` and the code as it came: so
/// it is when the kernel refuses, for whatever reason, to assign the address
/// or to raise the link.
pub proof fn lemma_rejection_keeps_its_code(session: SessionModel, datagram: Seq<u8>, code: i32)
    requires
        exchanging(session),
        code != 0,
        carries_code(datagram, session.channel.seq, code),
    ensures
        session.phase == Phase::Addressing || session.phase == Phase::Raising
            ==> session.resume(EventModel::Datagram(datagram)) == (StepModel::Failed {
            state: session.state,
            error: ErrorModel::KernelRejected { code },
        }),
        session.phase.is_lookup() && code != -ENODEV ==> session.resume(
            EventModel::Datagram(datagram),
        ) == (StepModel::Failed {
            state: session.state,
            error: ErrorModel::KernelRejected { code },
        }),
        session.phase == Phase::Creating && code != -EEXIST && code != -EPERM && code != -EACCES
            ==> session.resume(EventModel::Datagram(datagram)) == (StepModel::Failed {
            state: session.state,
            error: ErrorModel::KernelRejected { code },
        }),
        session.phase == Phase::Creating && (code == -EPERM || code == -EACCES)
            ==> session.resume(EventModel::Datagram(datagram)) == (StepModel::Failed {
            state: session.state,
            error: ErrorModel::PermissionDenied,
        }),
{
    lemma_verdicts(datagram, session.channel.seq, code, 0);
}

/// The first step of every operation. Those that talk to the kernel open a
/// channel and send its first request; the others run their program. Giving
/// an address fails at once where none could be read, or the prefix is longer
/// than the address.
pub proof fn lemma_first_steps(iface: Seq<char>, cidr: Option<Cidr>, config: Seq<char>)
    ensures
        asks(
            SessionModel::begin(Goal::AddLink, iface, cidr, config),
            ActionModel::Open(create_link(encode_utf8(iface), 1)),
        ),
        asks(
            SessionModel::begin(Goal::Up, iface, cidr, config),
            ActionModel::Open(create_link(encode_utf8(iface), 1)),
        ),
        asks(
            SessionModel::begin(Goal::LinkUp, iface, cidr, config),
            ActionModel::Open(find_link(encode_utf8(iface), 1)),
        ),
        (cidr matches Some(c) && c.wf()) ==> asks(
            SessionModel::begin(Goal::AddAddress, iface, cidr, config),
            ActionModel::Open(find_link(encode_utf8(iface), 1)),
        ),
        !(cidr matches Some(c) && c.wf()) ==> SessionModel::begin(
            Goal::AddAddress,
            iface,
            cidr,
            config,
        ) == (StepModel::Failed {
            state: LinkState::Created,
            error: ErrorModel::InvalidAddress,
        }),
        asks(
            SessionModel::begin(Goal::Down, iface, cidr, config),
            ActionModel::Run(link_del(iface)),
        ),
        asks(
            SessionModel::begin(Goal::AddConfig, iface, cidr, config),
            ActionModel::Run(addconf(iface, config)),
        ),
{
}

/// Bringing an interface up, when nothing fails, is exactly this: the request
/// that creates the link; a lookup and the request that assigns the address;
/// a lookup and the request that raises the link; the program that installs
/// the route, whose outcome does not matter; and the program that pushes the
/// configuration with the private key and the listen port. Three channels are
/// opened, one for each of the three changes, and every request names the
/// interface or the index that the lookup before it returned. The interface
/// ends up configured.
pub proof fn lemma_up_runs_to_configured(
    iface: Seq<char>,
    privkey: Seq<char>,
    cidr: Cidr,
    created: Seq<u8>,
    found_first: Seq<u8>,
    addressed: Seq<u8>,
    found_again: Seq<u8>,
    raised: Seq<u8>,
    first_index: u32,
    second_index: u32,
    route: EventModel,
    exit: Option<i32>,
)
    requires
        cidr.wf(),
        carries_code(created, 1, 0),
        carries_link(found_first, 1, first_index),
        carries_code(addressed, 2, 0),
        carries_link(found_again, 1, second_index),
        carries_code(raised, 2, 0),
        route is Exited,
    ensures
        ({
            let name = encode_utf8(iface);
            let config = interface_config(privkey);
            let s0 = SessionModel::begin(Goal::Up, iface, Some(cidr), config);
            let s1 = after(s0, EventModel::Datagram(created));
            let s2 = after(s1, EventModel::Datagram(found_first));
            let s3 = after(s2, EventModel::Datagram(addressed));
            let s4 = after(s3, EventModel::Datagram(found_again));
            let s5 = after(s4, EventModel::Datagram(raised));
            let s6 = after(s5, route);
            let s7 = after(s6, EventModel::Exited { success: true, exit });
            &&& asks(s0, ActionModel::Open(create_link(name, 1)))
            &&& asks(s1, ActionModel::Open(find_link(name, 1)))
            &&& asks(s2, ActionModel::Send(add_address(first_index, cidr.ip, cidr.prefix, 2)))
            &&& asks(s3, ActionModel::Open(find_link(name, 1)))
            &&& asks(s4, ActionModel::Send(set_up(second_index, 2)))
            &&& asks(s5, ActionModel::Run(route_add(iface)))
            &&& asks(s6, ActionModel::Run(addconf(iface, config)))
            &&& s7 == StepModel::Done(LinkState::ConfiguredUp)
        }),
{
    let name = encode_utf8(iface);
    let config = interface_config(privkey);
    let s0 = SessionModel::begin(Goal::Up, iface, Some(cidr), config);
    assert(asks(s0, ActionModel::Open(create_link(name, 1))));
    lemma_verdicts(created, 1, 0, 0);
    let s1 = after(s0, EventModel::Datagram(created));
    assert(asks(s1, ActionModel::Open(find_link(name, 1))));
    lemma_verdicts(found_first, 1, 0, first_index);
    let s2 = after(s1, EventModel::Datagram(found_first));
    assert(asks(s2, ActionModel::Send(add_address(first_index, cidr.ip, cidr.prefix, 2))));
    lemma_verdicts(addressed, 2, 0, 0);
    let s3 = after(s2, EventModel::Datagram(addressed));
    assert(asks(s3, ActionModel::Open(find_link(name, 1))));
    lemma_verdicts(found_again, 1, 0, second_index);
    let s4 = after(s3, EventModel::Datagram(found_again));
    assert(asks(s4, ActionModel::Send(set_up(second_index, 2))));
    lemma_verdicts(raised, 2, 0, 0);
    let s5 = after(s4, EventModel::Datagram(raised));
    assert(asks(s5, ActionModel::Run(route_add(iface))));
    let s6 = after(s5, route);
    assert(asks(s6, ActionModel::Run(addconf(iface, config))));
}

/// Bringing an interface up and taking it down again leaves no link of that
/// name: when no step fails, `up` ends with the interface configured, and
/// `down`, whose one step is the program that deletes the link, ends with the
/// interface absent, whatever state it was in.
pub proof fn lemma_up_then_down_is_absent(
    iface: Seq<char>,
    privkey: Seq<char>,
    cidr: Cidr,
    created: Seq<u8>,
    found_first: Seq<u8>,
    addressed: Seq<u8>,
    found_again: Seq<u8>,
    raised: Seq<u8>,
    first_index: u32,
    second_index: u32,
    exit: Option<i32>,
)
    requires
        cidr.wf(),
        carries_code(created, 1, 0),
        carries_link(found_first, 1, first_index),
        carries_code(addressed, 2, 0),
        carries_link(found_again, 1, second_index),
        carries_code(raised, 2, 0),
    ensures
        ({
            let done = EventModel::Exited { success: true, exit };
            let s0 = SessionModel::begin(Goal::Up, iface, Some(cidr), interface_config(privkey));
            let s1 = after(s0, EventModel::Datagram(created));
            let s2 = after(s1, EventModel::Datagram(found_first));
            let s3 = after(s2, EventModel::Datagram(addressed));
            let s4 = after(s3, EventModel::Datagram(found_again));
            let s5 = after(s4, EventModel::Datagram(raised));
            let up = after(after(s5, done), done);
            let down = after(SessionModel::begin(Goal::Down, iface, None, Seq::empty()), done);
            &&& up == StepModel::Done(LinkState::ConfiguredUp)
            &&& asks(
                SessionModel::begin(Goal::Down, iface, None, Seq::empty()),
                ActionModel::Run(link_del(iface)),
            )
            &&& down == StepModel::Done(LinkState::Absent)
        }),
{
    lemma_up_runs_to_configured(
        iface,
        privkey,
        cidr,
        created,
        found_first,
        addressed,
        found_again,
        raised,
        first_index,
        second_index,
        EventModel::Exited { success: true, exit },
        exit,
    );
}

/// The two runs of the key tool make the pair. What the first run printed,
/// decoded and trimmed, is the private key; it is the input of the second run,
/// which derives the public key; and the pair holds that same private key
/// beside what the second run printed. Printing the same twice gives the same
/// pair twice. If either run fails, so does the generation, with that run's
/// failure.
pub proof fn lemma_keypair_is_what_the_tool_printed(
    first: Seq<u8>,
    second: Seq<u8>,
    exit: Option<i32>,
)
    ensures
        ({
            let start = KeygenModel { privkey: None };
            let privkey = trimmed(utf8_lossy(first));
            let derived = KeygenModel { privkey: Some(privkey) };
            &&& start.resume(true, exit, first) == KeygenStepModel::Next(derived, pubkey(privkey))
            &&& pubkey(privkey).input == Some(privkey)
            &&& derived.resume(true, exit, second) == KeygenStepModel::Done(
                KeypairModel { privkey, pubkey: trimmed(utf8_lossy(second)) },
            )
            &&& start.resume(false, exit, first) == KeygenStepModel::Failed(genkey().failure(exit))
            &&& derived.resume(false, exit, second) == KeygenStepModel::Failed(
                pubkey(privkey).failure(exit),
            )
        }),
{
}

/// The keys of a generated pair carry no white space at either end, so the
/// line end that the key tool prints is never part of a key; and a key is
/// empty only if the tool printed nothing but white space. Where a run prints
/// a text without white space at its ends, followed by a line feed, that text
/// is the key.
pub proof fn lemma_keys_are_trimmed(first: Seq<u8>, second: Seq<u8>, exit: Option<i32>)
    ensures
        ({
            let start = KeygenModel { privkey: None };
            let privkey = trimmed(utf8_lossy(first));
            let pubkey = trimmed(utf8_lossy(second));
            let derived = KeygenModel { privkey: Some(privkey) };
            &&& derived.resume(true, exit, second) == KeygenStepModel::Done(
                KeypairModel { privkey, pubkey },
            )
            &&& privkey.len() > 0 ==> !white_space(privkey.first()) && !white_space(
                privkey.last(),
            )
            &&& pubkey.len() > 0 ==> !white_space(pubkey.first()) && !white_space(pubkey.last())
            &&& privkey.len() == 0 <==> (forall|k: int|
                0 <= k < utf8_lossy(first).len() ==> white_space(#[trigger] utf8_lossy(first)[k]))
            &&& pubkey.len() == 0 <==> (forall|k: int|
                0 <= k < utf8_lossy(second).len() ==> white_space(
                    #[trigger] utf8_lossy(second)[k],
                ))
        }),
        forall|key: Seq<char>|
            key.len() > 0 && !white_space(key.first()) && !white_space(key.last())
                ==> #[trigger] trimmed(key + seq!['\n']) == key,
{
    lemma_trimmed_edges(utf8_lossy(first));
    lemma_trimmed_edges(utf8_lossy(second));
    assert forall|key: Seq<char>|
        key.len() > 0 && !white_space(key.first()) && !white_space(
            key.last(),
        ) implies #[trigger] trimmed(key + seq!['\n']) == key by {
        assert(white_space('\n'));
        lemma_trimmed_core(Seq::empty(), key, seq!['\n']);
        assert(Seq::<char>::empty() + key + seq!['\n'] =~= key + seq!['\n']);
    }
}

} // verus!
