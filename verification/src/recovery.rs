use vstd::prelude::*;
use crate::codec::{push_u32, bincode_decode_u32, varint_u32, varint_read_u32, lemma_varint_roundtrip};

verus! {

/// Hook points on a chassis.
#[derive(Clone, Copy, Debug, PartialEq, Eq, Structural)]
pub enum HookKind {
    FrontHook,
    RearHook,
    CageHook,
}

/// The two recovery mechanics.
#[derive(Clone, Copy, Debug, PartialEq, Eq, Structural)]
pub enum RecoveryKind {
    Winch,
    TowStrap,
}

impl HookKind {
    pub fn label(self) -> (r: &'static str)
        ensures
            r@ == match self {
                HookKind::FrontHook => "Front"@,
                HookKind::RearHook => "Rear"@,
                HookKind::CageHook => "Cage"@,
            },
    {
        match self {
            HookKind::FrontHook => "Front",
            HookKind::RearHook => "Rear",
            HookKind::CageHook => "Cage",
        }
    }
}

/// A recovery signalling message. Peer identities are not carried: the
/// socket names the sender. `attach_id` matches an Accept to its Request.
#[derive(Clone, Copy, Debug, PartialEq, Eq, Structural)]
pub enum RecoveryMessage {
    Request { target_hook: HookKind, our_hook: HookKind, kind: RecoveryKind, attach_id: u32 },
    Accept { attach_id: u32 },
    Reject,
    Retract { attach_id: u32 },
    Detach { attach_id: u32 },
}

/// Why a byte string is not a recovery message.
#[derive(Clone, Copy, Debug, PartialEq, Eq, Structural)]
pub enum CodecError {
    /// bincode could not read an integer (the bytes end too early or hold
    /// a marker that no `u32` has).
    Malformed,
    /// An enum index outside the variants of its type.
    UnexpectedVariant { found: u32 },
}

pub open spec fn hook_index(h: HookKind) -> u32 {
    match h {
        HookKind::FrontHook => 0,
        HookKind::RearHook => 1,
        HookKind::CageHook => 2,
    }
}

pub open spec fn hook_of(i: u32) -> HookKind {
    if i == 0 { HookKind::FrontHook } else if i == 1 { HookKind::RearHook } else { HookKind::CageHook }
}

pub open spec fn kind_index(k: RecoveryKind) -> u32 {
    match k {
        RecoveryKind::Winch => 0,
        RecoveryKind::TowStrap => 1,
    }
}

pub open spec fn kind_of(i: u32) -> RecoveryKind {
    if i == 0 { RecoveryKind::Winch } else { RecoveryKind::TowStrap }
}

/// The wire form of a message: the tag (0 Request, 1 Accept, 2 Reject,
/// 3 Retract, 4 Detach) followed by the payload fields, each enum as its
/// variant index and every integer in bincode's varint form.
pub open spec fn wire(m: RecoveryMessage) -> Seq<u8> {
    match m {
        RecoveryMessage::Request { target_hook, our_hook, kind, attach_id } =>
            varint_u32(0) + varint_u32(hook_index(target_hook)) + varint_u32(hook_index(our_hook))
                + varint_u32(kind_index(kind)) + varint_u32(attach_id),
        RecoveryMessage::Accept { attach_id } => varint_u32(1) + varint_u32(attach_id),
        RecoveryMessage::Reject => varint_u32(2),
        RecoveryMessage::Retract { attach_id } => varint_u32(3) + varint_u32(attach_id),
        RecoveryMessage::Detach { attach_id } => varint_u32(4) + varint_u32(attach_id),
    }
}

/// Reads an integer at the front of `s`.
pub open spec fn read_int(s: Seq<u8>) -> Result<(u32, nat), CodecError> {
    match varint_read_u32(s) {
        Some((v, n)) => Ok((v, n)),
        None => Err(CodecError::Malformed),
    }
}

/// Reads the variant index of an enum with `count` variants.
pub open spec fn read_index(s: Seq<u8>, count: u32) -> Result<(u32, nat), CodecError> {
    match varint_read_u32(s) {
        Some((v, n)) => if v < count { Ok((v, n)) } else { Err(CodecError::UnexpectedVariant { found: v }) },
        None => Err(CodecError::Malformed),
    }
}

/// The payload of a Request, read from `s`.
pub open spec fn read_request(s: Seq<u8>) -> Result<RecoveryMessage, CodecError> {
    match read_index(s, 3) {
        Err(e) => Err(e),
        Ok((a, n1)) => {
            let s1 = s.skip(n1 as int);
            match read_index(s1, 3) {
                Err(e) => Err(e),
                Ok((b, n2)) => {
                    let s2 = s1.skip(n2 as int);
                    match read_index(s2, 2) {
                        Err(e) => Err(e),
                        Ok((k, n3)) => {
                            let s3 = s2.skip(n3 as int);
                            match read_int(s3) {
                                Err(e) => Err(e),
                                Ok((id, _)) => Ok(
                                    RecoveryMessage::Request {
                                        target_hook: hook_of(a),
                                        our_hook: hook_of(b),
                                        kind: kind_of(k),
                                        attach_id: id,
                                    },
                                ),
                            }
                        },
                    }
                },
            }
        },
    }
}

/// What a byte string decodes to. Bytes after the message are ignored.
pub open spec fn read_message(s: Seq<u8>) -> Result<RecoveryMessage, CodecError> {
    match read_index(s, 5) {
        Err(e) => Err(e),
        Ok((tag, n)) => {
            let rest = s.skip(n as int);
            if tag == 0 {
                read_request(rest)
            } else if tag == 2 {
                Ok(RecoveryMessage::Reject)
            } else {
                match read_int(rest) {
                    Err(e) => Err(e),
                    Ok((id, _)) => if tag == 1 {
                        Ok(RecoveryMessage::Accept { attach_id: id })
                    } else if tag == 3 {
                        Ok(RecoveryMessage::Retract { attach_id: id })
                    } else {
                        Ok(RecoveryMessage::Detach { attach_id: id })
                    },
                }
            }
        },
    }
}

fn hook_code(h: HookKind) -> (r: u32)
    ensures
        r == hook_index(h),
{
    match h {
        HookKind::FrontHook => 0,
        HookKind::RearHook => 1,
        HookKind::CageHook => 2,
    }
}

fn kind_code(k: RecoveryKind) -> (r: u32)
    ensures
        r == kind_index(k),
{
    match k {
        RecoveryKind::Winch => 0,
        RecoveryKind::TowStrap => 1,
    }
}

fn read_u32_at(bytes: &[u8], pos: usize) -> (r: Result<(u32, usize), CodecError>)
    requires
        pos <= bytes@.len(),
    ensures
        match r {
            Ok((v, q)) => pos <= q <= bytes@.len() && read_int(bytes@.skip(pos as int))
                == Ok::<(u32, nat), CodecError>((v, (q - pos) as nat)),
            Err(e) => read_int(bytes@.skip(pos as int)) == Err::<(u32, nat), CodecError>(e),
        },
{
    let blen = bytes.len();
    let (_, rest) = bytes.split_at(pos);
    proof {
        assert(rest@ =~= bytes@.skip(pos as int));
    }
    match bincode_decode_u32(rest) {
        Ok((v, n)) => {
            assert(n <= rest@.len());
            assert(rest@.len() == bytes@.len() - pos);
            Ok((v, pos + n))
        },
        Err(_) => Err(CodecError::Malformed),
    }
}

fn read_index_at(bytes: &[u8], pos: usize, count: u32) -> (r: Result<(u32, usize), CodecError>)
    requires
        pos <= bytes@.len(),
    ensures
        match r {
            Ok((v, q)) => pos <= q <= bytes@.len() && read_index(bytes@.skip(pos as int), count)
                == Ok::<(u32, nat), CodecError>((v, (q - pos) as nat)),
            Err(e) => read_index(bytes@.skip(pos as int), count) == Err::<(u32, nat), CodecError>(e),
        },
{
    match read_u32_at(bytes, pos) {
        Ok((v, p)) => {
            if v < count {
                Ok((v, p))
            } else {
                Err(CodecError::UnexpectedVariant { found: v })
            }
        },
        Err(e) => Err(e),
    }
}

fn hook_from(i: u32) -> (h: HookKind)
    ensures
        h == hook_of(i),
{
    if i == 0 { HookKind::FrontHook } else if i == 1 { HookKind::RearHook } else { HookKind::CageHook }
}

fn kind_from(i: u32) -> (k: RecoveryKind)
    ensures
        k == kind_of(i),
{
    if i == 0 { RecoveryKind::Winch } else { RecoveryKind::TowStrap }
}

proof fn lemma_skip_skip(s: Seq<u8>, a: int, b: int)
    requires
        0 <= a,
        0 <= b,
        a + b <= s.len(),
    ensures
        s.skip(a).skip(b) =~= s.skip(a + b),
{
}

#[verifier::spinoff_prover]
#[verifier::rlimit(40)]
fn decode_request_at(bytes: &[u8], p: usize) -> (r: Result<RecoveryMessage, CodecError>)
    requires
        p <= bytes@.len(),
    ensures
        r == read_request(bytes@.skip(p as int)),
{
    let ghost rest = bytes@.skip(p as int);
    let (a, p1) = match read_index_at(bytes, p, 3) {
        Ok(x) => x,
        Err(e) => return Err(e),
    };
    proof { lemma_skip_skip(bytes@, p as int, p1 - p); }
    let (b, p2) = match read_index_at(bytes, p1, 3) {
        Ok(x) => x,
        Err(e) => return Err(e),
    };
    proof {
        lemma_skip_skip(bytes@, p1 as int, p2 - p1);
        lemma_skip_skip(rest, p1 - p, p2 - p1);
    }
    let (k, p3) = match read_index_at(bytes, p2, 2) {
        Ok(x) => x,
        Err(e) => return Err(e),
    };
    proof {
        lemma_skip_skip(bytes@, p2 as int, p3 - p2);
        lemma_skip_skip(rest, p2 - p, p3 - p2);
    }
    let (id, _) = match read_u32_at(bytes, p3) {
        Ok(x) => x,
        Err(e) => return Err(e),
    };
    Ok(RecoveryMessage::Request {
        target_hook: hook_from(a),
        our_hook: hook_from(b),
        kind: kind_from(k),
        attach_id: id,
    })
}

impl RecoveryMessage {
    /// Serialises the message: the tag, then the payload.
    pub fn encode_bytes(&self) -> (r: Result<Vec<u8>, CodecError>)
        ensures
            r is Ok,
            r is Ok ==> r->Ok_0@ == wire(*self),
    {
        let mut out: Vec<u8> = Vec::new();
        match *self {
            RecoveryMessage::Request { target_hook, our_hook, kind, attach_id } => {
                push_u32(&mut out, 0);
                push_u32(&mut out, hook_code(target_hook));
                push_u32(&mut out, hook_code(our_hook));
                push_u32(&mut out, kind_code(kind));
                push_u32(&mut out, attach_id);
            },
            RecoveryMessage::Accept { attach_id } => {
                push_u32(&mut out, 1);
                push_u32(&mut out, attach_id);
            },
            RecoveryMessage::Reject => {
                push_u32(&mut out, 2);
            },
            RecoveryMessage::Retract { attach_id } => {
                push_u32(&mut out, 3);
                push_u32(&mut out, attach_id);
            },
            RecoveryMessage::Detach { attach_id } => {
                push_u32(&mut out, 4);
                push_u32(&mut out, attach_id);
            },
        }
        proof {
            assert(out@ =~= wire(*self));
        }
        Ok(out)
    }

    /// Parses a message from its wire form; trailing bytes are ignored.
    pub fn decode_bytes(bytes: &[u8]) -> (r: Result<RecoveryMessage, CodecError>)
        ensures
            r == read_message(bytes@),
    {
        proof {
            assert(bytes@.skip(0) =~= bytes@);
        }
        let (tag, p) = match read_index_at(bytes, 0, 5) {
            Ok(x) => x,
            Err(e) => return Err(e),
        };
        if tag == 0 {
            decode_request_at(bytes, p)
        } else if tag == 2 {
            Ok(RecoveryMessage::Reject)
        } else {
            let (id, _) = match read_u32_at(bytes, p) {
                Ok(x) => x,
                Err(e) => return Err(e),
            };
            if tag == 1 {
                Ok(RecoveryMessage::Accept { attach_id: id })
            } else if tag == 3 {
                Ok(RecoveryMessage::Retract { attach_id: id })
            } else {
                Ok(RecoveryMessage::Detach { attach_id: id })
            }
        }
    }
}


proof fn lemma_request_roundtrip(th: HookKind, oh: HookKind, k: RecoveryKind, id: u32, rest: Seq<u8>)
    ensures
        read_request(
            varint_u32(hook_index(th)) + (varint_u32(hook_index(oh)) + (varint_u32(kind_index(k)) + (
            varint_u32(id) + rest))),
        ) == Ok::<RecoveryMessage, CodecError>(
            RecoveryMessage::Request { target_hook: th, our_hook: oh, kind: k, attach_id: id },
        ),
{
    let t4 = varint_u32(id) + rest;
    let t3 = varint_u32(kind_index(k)) + t4;
    let t2 = varint_u32(hook_index(oh)) + t3;
    let t1 = varint_u32(hook_index(th)) + t2;
    lemma_varint_roundtrip(hook_index(th), t2);
    lemma_varint_roundtrip(hook_index(oh), t3);
    lemma_varint_roundtrip(kind_index(k), t4);
    lemma_varint_roundtrip(id, rest);
    assert(read_index(t1, 3) == Ok::<(u32, nat), CodecError>((hook_index(th), varint_u32(hook_index(th)).len())));
    assert(read_index(t2, 3) == Ok::<(u32, nat), CodecError>((hook_index(oh), varint_u32(hook_index(oh)).len())));
    assert(read_index(t3, 2) == Ok::<(u32, nat), CodecError>((kind_index(k), varint_u32(kind_index(k)).len())));
    assert(hook_of(hook_index(th)) == th);
    assert(hook_of(hook_index(oh)) == oh);
    assert(kind_of(kind_index(k)) == k);
}

proof fn lemma_tagged_roundtrip(tag: u32, id: u32)
    requires
        tag == 1 || tag == 3 || tag == 4,
    ensures
        read_message(varint_u32(tag) + varint_u32(id)) == Ok::<RecoveryMessage, CodecError>(
            if tag == 1 {
                RecoveryMessage::Accept { attach_id: id }
            } else if tag == 3 {
                RecoveryMessage::Retract { attach_id: id }
            } else {
                RecoveryMessage::Detach { attach_id: id }
            },
        ),
{
    let empty = Seq::<u8>::empty();
    let t = varint_u32(id) + empty;
    assert(varint_u32(tag) + varint_u32(id) =~= varint_u32(tag) + t);
    lemma_varint_roundtrip(tag, t);
    lemma_varint_roundtrip(id, empty);
}

/// Decoding what `encode_bytes` produced gives the message back, for
/// every message.
pub proof fn lemma_decode_encode(m: RecoveryMessage)
    ensures
        read_message(wire(m)) == Ok::<RecoveryMessage, CodecError>(m),
{
    let empty = Seq::<u8>::empty();
    match m {
        RecoveryMessage::Request { target_hook, our_hook, kind, attach_id } => {
            let t1 = varint_u32(hook_index(target_hook)) + (varint_u32(hook_index(our_hook)) + (
            varint_u32(kind_index(kind)) + (varint_u32(attach_id) + empty)));
            assert(wire(m) =~= varint_u32(0) + t1);
            lemma_varint_roundtrip(0, t1);
            lemma_request_roundtrip(target_hook, our_hook, kind, attach_id, empty);
        },
        RecoveryMessage::Accept { attach_id } => {
            lemma_tagged_roundtrip(1, attach_id);
        },
        RecoveryMessage::Reject => {
            assert(wire(m) =~= varint_u32(2) + empty);
            lemma_varint_roundtrip(2, empty);
        },
        RecoveryMessage::Retract { attach_id } => {
            lemma_tagged_roundtrip(3, attach_id);
        },
        RecoveryMessage::Detach { attach_id } => {
            lemma_tagged_roundtrip(4, attach_id);
        },
    }
}


/// An established peer-to-peer recovery link.
#[derive(Clone, Copy, Debug, PartialEq, Eq, Structural)]
pub struct RecoveryConnection {
    pub peer_id: u128,
    pub our_hook: HookKind,
    pub peer_hook: HookKind,
    pub kind: RecoveryKind,
    /// True if we initiated (are the rescuer).
    pub rescuer: bool,
    pub attach_id: u32,
    /// Set when a Retract arrives; cleared by each physics step.
    pub retracting: bool,
}

/// A request we sent that waits for Accept or Reject.
#[derive(Clone, Copy, Debug, PartialEq, Eq, Structural)]
pub struct PendingRequest {
    pub peer_id: u128,
    pub our_hook: HookKind,
    pub peer_hook: HookKind,
    pub kind: RecoveryKind,
    pub attach_id: u32,
}

/// Connection state of the recovery protocol. (The cable length, a
/// float, is kept by the caller and reset whenever `connected` is
/// reported.)
#[derive(Clone, Copy, Debug, PartialEq, Eq, Structural)]
pub struct RecoveryState {
    pub active: Option<RecoveryConnection>,
    pub pending_request: Option<PendingRequest>,
}

/// What handling one incoming message did: the reply to send back to the
/// sender, and whether a new connection was established.
#[derive(Clone, Copy, Debug, PartialEq, Eq, Structural)]
pub struct MessageOutcome {
    pub reply: Option<RecoveryMessage>,
    pub connected: bool,
}

/// The protocol's reaction to `msg` arriving from `peer`.
pub open spec fn on_message(s: RecoveryState, peer: u128, msg: RecoveryMessage) -> (RecoveryState, MessageOutcome) {
    match msg {
        RecoveryMessage::Request { target_hook, our_hook, kind, attach_id } => {
            if s.active is Some {
                (s, MessageOutcome { reply: Some(RecoveryMessage::Reject), connected: false })
            } else {
                (
                    RecoveryState {
                        active: Some(
                            RecoveryConnection {
                                peer_id: peer,
                                our_hook: target_hook,
                                peer_hook: our_hook,
                                kind,
                                rescuer: false,
                                attach_id,
                                retracting: false,
                            },
                        ),
                        ..s
                    },
                    MessageOutcome { reply: Some(RecoveryMessage::Accept { attach_id }), connected: true },
                )
            }
        },
        RecoveryMessage::Accept { attach_id } => {
            match s.pending_request {
                Some(p) => if p.peer_id == peer && p.attach_id == attach_id {
                    (
                        RecoveryState {
                            active: Some(
                                RecoveryConnection {
                                    peer_id: peer,
                                    our_hook: p.our_hook,
                                    peer_hook: p.peer_hook,
                                    kind: p.kind,
                                    rescuer: true,
                                    attach_id,
                                    retracting: false,
                                },
                            ),
                            pending_request: None,
                        },
                        MessageOutcome { reply: None, connected: true },
                    )
                } else {
                    (RecoveryState { pending_request: None, ..s }, MessageOutcome { reply: None, connected: false })
                },
                None => (s, MessageOutcome { reply: None, connected: false }),
            }
        },
        RecoveryMessage::Reject => {
            if s.pending_request matches Some(p) && p.peer_id == peer {
                (RecoveryState { pending_request: None, ..s }, MessageOutcome { reply: None, connected: false })
            } else {
                (s, MessageOutcome { reply: None, connected: false })
            }
        },
        RecoveryMessage::Retract { attach_id } => {
            match s.active {
                Some(c) => if c.peer_id == peer && c.attach_id == attach_id && !c.rescuer {
                    (
                        RecoveryState { active: Some(RecoveryConnection { retracting: true, ..c }), ..s },
                        MessageOutcome { reply: None, connected: false },
                    )
                } else {
                    (s, MessageOutcome { reply: None, connected: false })
                },
                None => (s, MessageOutcome { reply: None, connected: false }),
            }
        },
        RecoveryMessage::Detach { .. } => {
            if s.active matches Some(c) && c.peer_id == peer {
                (RecoveryState { active: None, ..s }, MessageOutcome { reply: None, connected: false })
            } else {
                (s, MessageOutcome { reply: None, connected: false })
            }
        },
    }
}

impl RecoveryState {
    pub fn new() -> (r: RecoveryState)
        ensures
            r.active is None,
            r.pending_request is None,
    {
        RecoveryState { active: None, pending_request: None }
    }

    /// Handles one message from `peer`: a request is accepted when we are
    /// not linked (rejected otherwise); an accept matching our pending
    /// request links us as the rescuer; a reject from the peer we asked
    /// drops the request; a retract for our link as victim starts pulling;
    /// a detach from our peer ends the link.
    pub fn handle_message(&mut self, peer: u128, msg: RecoveryMessage) -> (out: MessageOutcome)
        ensures
            (*final(self), out) == on_message(*old(self), peer, msg),
    {
        match msg {
            RecoveryMessage::Request { target_hook, our_hook, kind, attach_id } => {
                if self.active.is_some() {
                    return MessageOutcome { reply: Some(RecoveryMessage::Reject), connected: false };
                }
                self.active = Some(
                    RecoveryConnection {
                        peer_id: peer,
                        our_hook: target_hook,
                        peer_hook: our_hook,
                        kind,
                        rescuer: false,
                        attach_id,
                        retracting: false,
                    },
                );
                MessageOutcome { reply: Some(RecoveryMessage::Accept { attach_id }), connected: true }
            },
            RecoveryMessage::Accept { attach_id } => {
                match self.pending_request.take() {
                    Some(p) => {
                        if p.peer_id == peer && p.attach_id == attach_id {
                            self.active = Some(
                                RecoveryConnection {
                                    peer_id: peer,
                                    our_hook: p.our_hook,
                                    peer_hook: p.peer_hook,
                                    kind: p.kind,
                                    rescuer: true,
                                    attach_id,
                                    retracting: false,
                                },
                            );
                            MessageOutcome { reply: None, connected: true }
                        } else {
                            MessageOutcome { reply: None, connected: false }
                        }
                    },
                    None => MessageOutcome { reply: None, connected: false },
                }
            },
            RecoveryMessage::Reject => {
                let from_peer = match self.pending_request {
                    Some(p) => p.peer_id == peer,
                    None => false,
                };
                if from_peer {
                    self.pending_request = None;
                }
                MessageOutcome { reply: None, connected: false }
            },
            RecoveryMessage::Retract { attach_id } => {
                match self.active {
                    Some(c) => {
                        if c.peer_id == peer && c.attach_id == attach_id && !c.rescuer {
                            self.active = Some(RecoveryConnection { retracting: true, ..c });
                        }
                    },
                    None => {},
                }
                MessageOutcome { reply: None, connected: false }
            },
            RecoveryMessage::Detach { .. } => {
                let from_peer = match self.active {
                    Some(c) => c.peer_id == peer,
                    None => false,
                };
                if from_peer {
                    self.active = None;
                }
                MessageOutcome { reply: None, connected: false }
            },
        }
    }
}


/// What one received byte string did to the protocol.
#[derive(Debug)]
pub struct Received {
    /// Bytes to send back to the sender, if any.
    pub reply: Option<Vec<u8>>,
    /// Whether a new connection was established (reset the cable length).
    pub connected: bool,
}

pub open spec fn pending_for(
    our_hook: HookKind,
    peer_id: u128,
    peer_hook: HookKind,
    kind: RecoveryKind,
    attach_id: u32,
) -> PendingRequest {
    PendingRequest { peer_id, our_hook, peer_hook, kind, attach_id }
}

pub open spec fn request_for(our_hook: HookKind, peer_hook: HookKind, kind: RecoveryKind, attach_id: u32) -> RecoveryMessage {
    RecoveryMessage::Request { target_hook: peer_hook, our_hook, kind, attach_id }
}

impl RecoveryState {
    /// True while linked or waiting for an answer; no request may be sent.
    pub fn is_busy(&self) -> (r: bool)
        ensures
            r == (self.active is Some || self.pending_request is Some),
    {
        self.active.is_some() || self.pending_request.is_some()
    }

    /// Handles one byte string from `peer`: decodes it, updates the
    /// protocol, and encodes the reply. A malformed message changes
    /// nothing and is reported as the error.
    pub fn receive_bytes(&mut self, peer: u128, bytes: &[u8]) -> (r: Result<Received, CodecError>)
        ensures
            match read_message(bytes@) {
                Err(e) => r == Err::<Received, CodecError>(e) && *final(self) == *old(self),
                Ok(m) => r is Ok && *final(self) == on_message(*old(self), peer, m).0
                    && r->Ok_0.connected == on_message(*old(self), peer, m).1.connected
                    && match on_message(*old(self), peer, m).1.reply {
                        Some(reply) => r->Ok_0.reply matches Some(b) && b@ == wire(reply),
                        None => r->Ok_0.reply is None,
                    },
            },
    {
        let msg = match RecoveryMessage::decode_bytes(bytes) {
            Ok(m) => m,
            Err(e) => return Err(e),
        };
        let out = self.handle_message(peer, msg);
        let reply = match out.reply {
            Some(m) => match m.encode_bytes() {
                Ok(b) => Some(b),
                Err(_) => None,
            },
            None => None,
        };
        Ok(Received { reply, connected: out.connected })
    }
}

/// Issues the attach ids that match an Accept to its Request: the first is
/// 1, and each one is one more than the previous (wrapping past `u32::MAX`).
#[derive(Clone, Copy, Debug, PartialEq, Eq, Structural)]
pub struct AttachIdCounter {
    pub next: u32,
}

impl AttachIdCounter {
    pub fn new() -> (r: AttachIdCounter)
        ensures
            r.next == 1,
    {
        AttachIdCounter { next: 1 }
    }

    /// The next id.
    pub fn issue(&mut self) -> (id: u32)
        ensures
            id == old(self).next,
            final(self).next == (old(self).next + 1) % 0x1_0000_0000,
    {
        let id = self.next;
        self.next = if self.next == u32::MAX { 0 } else { self.next + 1 };
        id
    }
}

/// The id issued by the `i`-th request after a counter stood at `start`.
pub open spec fn issued_id(start: u32, i: int) -> int {
    (start + i) % 0x1_0000_0000
}

/// Ids are fresh: fewer than 2^32 consecutive requests never reuse an id.
pub proof fn lemma_ids_fresh(start: u32, i: int, j: int)
    requires
        0 <= i < j < 0x1_0000_0000,
    ensures
        issued_id(start, i) != issued_id(start, j),
{
    let m: int = 0x1_0000_0000;
    let a = start + i;
    let b = start + j;
    assert(a % m != b % m) by (nonlinear_arith)
        requires 0 <= a < b, b - a < m, m > 0;
}

/// Starts a recovery towards `peer_id`: unless a link or a request is
/// already under way, takes a fresh attach id, records the pending request
/// and returns the Request bytes to send to the peer. When busy, nothing
/// changes and no id is used.
pub fn request_recovery(
    our_hook: HookKind,
    peer_id: u128,
    peer_hook: HookKind,
    kind: RecoveryKind,
    state: &mut RecoveryState,
    ids: &mut AttachIdCounter,
) -> (r: Option<Vec<u8>>)
    ensures
        old(state).active is Some || old(state).pending_request is Some ==>
            r is None && *final(state) == *old(state) && *final(ids) == *old(ids),
        old(state).active is None && old(state).pending_request is None ==> r is Some
            && r->Some_0@ == wire(request_for(our_hook, peer_hook, kind, old(ids).next))
            && *final(state) == (RecoveryState {
                pending_request: Some(pending_for(our_hook, peer_id, peer_hook, kind, old(ids).next)),
                ..*old(state)
            })
            && final(ids).next == (old(ids).next + 1) % 0x1_0000_0000,
{
    if state.is_busy() {
        return None;
    }
    let attach_id = ids.issue();
    let msg = RecoveryMessage::Request { target_hook: peer_hook, our_hook, kind, attach_id };
    let bytes = match msg.encode_bytes() {
        Ok(b) => Some(b),
        Err(_) => None,
    };
    state.pending_request = Some(PendingRequest { peer_id, our_hook, peer_hook, kind, attach_id });
    bytes
}

impl RecoveryState {
    /// The rescuer of a winch link holding the retract key: the Retract
    /// message and the peer to send it to. `None` in every other case.
    pub fn retract(&self, key_held: bool) -> (r: Option<(u128, Vec<u8>)>)
        ensures
            match self.active {
                Some(c) => if c.kind == RecoveryKind::Winch && c.rescuer && key_held {
                    r matches Some((p, b)) && p == c.peer_id && b@ == wire(
                        RecoveryMessage::Retract { attach_id: c.attach_id },
                    )
                } else {
                    r is None
                },
                None => r is None,
            },
    {
        match self.active {
            Some(c) => {
                if c.kind == RecoveryKind::Winch && c.rescuer && key_held {
                    match (RecoveryMessage::Retract { attach_id: c.attach_id }).encode_bytes() {
                        Ok(b) => Some((c.peer_id, b)),
                        Err(_) => None,
                    }
                } else {
                    None
                }
            },
            None => None,
        }
    }

    /// Ends the link: clears it and returns the Detach message and the peer
    /// to send it to; `None` (and no change) when not linked.
    pub fn detach(&mut self) -> (r: Option<(u128, Vec<u8>)>)
        ensures
            final(self).active is None,
            final(self).pending_request == old(self).pending_request,
            match old(self).active {
                Some(c) => r matches Some((p, b)) && p == c.peer_id && b@ == wire(
                    RecoveryMessage::Detach { attach_id: c.attach_id },
                ),
                None => r is None,
            },
    {
        match self.active.take() {
            Some(c) => match (RecoveryMessage::Detach { attach_id: c.attach_id }).encode_bytes() {
                Ok(b) => Some((c.peer_id, b)),
                Err(_) => None,
            },
            None => None,
        }
    }

    /// Decides whether this chassis is pulled along the cable in this
    /// physics step, and clears the retract flag. The rescuer of a winch
    /// is pulled when the hooks are further apart than the cable; its
    /// victim while a Retract has arrived; both ends of a tow strap when
    /// the hooks are further apart than the strap.
    pub fn pull_step(&mut self, beyond_cable: bool, beyond_strap: bool) -> (pull: bool)
        ensures
            final(self).pending_request == old(self).pending_request,
            match old(self).active {
                Some(c) => final(self).active == Some(RecoveryConnection { retracting: false, ..c })
                    && pull == match c.kind {
                        RecoveryKind::Winch => if c.rescuer { beyond_cable } else { c.retracting },
                        RecoveryKind::TowStrap => beyond_strap,
                    },
                None => final(self).active is None && !pull,
            },
    {
        match self.active {
            Some(c) => {
                let pull = match c.kind {
                    RecoveryKind::Winch => if c.rescuer { beyond_cable } else { c.retracting },
                    RecoveryKind::TowStrap => beyond_strap,
                };
                self.active = Some(RecoveryConnection { retracting: false, ..c });
                pull
            },
            None => false,
        }
    }

    /// Clears the retract flag without pulling (the peer's chassis is not
    /// in view, or the hooks coincide).
    pub fn clear_retracting(&mut self)
        ensures
            final(self).pending_request == old(self).pending_request,
            match old(self).active {
                Some(c) => final(self).active == Some(RecoveryConnection { retracting: false, ..c }),
                None => final(self).active is None,
            },
    {
        match self.active {
            Some(c) => {
                self.active = Some(RecoveryConnection { retracting: false, ..c });
            },
            None => {},
        }
    }

    /// True when the rescuer of a tow strap feels the counter-drag.
    pub fn tow_drag_applies(&self) -> (r: bool)
        ensures
            r == (self.active matches Some(c) && c.kind == RecoveryKind::TowStrap && c.rescuer),
    {
        match self.active {
            Some(c) => c.kind == RecoveryKind::TowStrap && c.rescuer,
            None => false,
        }
    }
}

/// HUD label of a link kind.
pub fn kind_label(kind: RecoveryKind) -> (r: &'static str)
    ensures
        r@ == match kind {
            RecoveryKind::Winch => "Winching"@,
            RecoveryKind::TowStrap => "Tow Strap"@,
        },
{
    match kind {
        RecoveryKind::Winch => "Winching",
        RecoveryKind::TowStrap => "Tow Strap",
    }
}

/// HUD key hint of a link kind.
pub fn kind_hint(kind: RecoveryKind) -> (r: &'static str)
    ensures
        r@ == match kind {
            RecoveryKind::Winch => "\n[U] retract  [Esc] detach"@,
            RecoveryKind::TowStrap => "\n[Esc] detach"@,
        },
{
    match kind {
        RecoveryKind::Winch => "\n[U] retract  [Esc] detach",
        RecoveryKind::TowStrap => "\n[Esc] detach",
    }
}

/// The handshake: a rescuer sends a Request to an unlinked victim; the
/// victim accepts; the Accept arrives back. Both ends are then linked to
/// each other with the same attach id, mirrored hooks and the same kind,
/// and exactly one of them is the rescuer.
pub proof fn lemma_handshake(
    rescuer: RecoveryState,
    victim: RecoveryState,
    rescuer_id: u128,
    victim_id: u128,
    our_hook: HookKind,
    peer_hook: HookKind,
    kind: RecoveryKind,
    attach_id: u32,
)
    requires
        rescuer.active is None,
        rescuer.pending_request is None,
        victim.active is None,
    ensures
        ({
            let r1 = RecoveryState {
                pending_request: Some(pending_for(our_hook, victim_id, peer_hook, kind, attach_id)),
                ..rescuer
            };
            let (v2, out) = on_message(victim, rescuer_id, read_message(wire(request_for(our_hook, peer_hook, kind, attach_id)))->Ok_0);
            let (r2, _) = on_message(r1, victim_id, read_message(wire(out.reply->Some_0))->Ok_0);
            &&& out.reply is Some
            &&& out.connected
            &&& r2.active matches Some(rc)
            &&& v2.active matches Some(vc)
            &&& rc.peer_id == victim_id && vc.peer_id == rescuer_id
            &&& rc.our_hook == vc.peer_hook && rc.peer_hook == vc.our_hook
            &&& rc.kind == vc.kind && rc.attach_id == vc.attach_id
            &&& rc.rescuer && !vc.rescuer
            &&& r2.pending_request is None
        }),
{
    lemma_decode_encode(request_for(our_hook, peer_hook, kind, attach_id));
    lemma_decode_encode(RecoveryMessage::Accept { attach_id });
}

/// A linked chassis answers every further request with a Reject and
/// keeps its link; the requester, on that Reject, drops its request.
pub proof fn lemma_busy_rejects(
    victim: RecoveryState,
    requester: RecoveryState,
    victim_id: u128,
    requester_id: u128,
    msg: RecoveryMessage,
)
    requires
        victim.active is Some,
        msg is Request,
        requester.pending_request matches Some(p) && p.peer_id == victim_id,
    ensures
        ({
            let (v2, out) = on_message(victim, requester_id, msg);
            let (r2, back) = on_message(requester, victim_id, read_message(wire(out.reply->Some_0))->Ok_0);
            &&& v2 == victim
            &&& out.reply == Some(RecoveryMessage::Reject)
            &&& !out.connected
            &&& r2.pending_request is None
            &&& r2.active == requester.active
            &&& !back.connected
        }),
{
    lemma_decode_encode(RecoveryMessage::Reject);
}

/// A detach ends the link on the side that sends it and, when it arrives,
/// on the side that receives it.
pub proof fn lemma_detach_ends_link(s: RecoveryState, peer: u128, attach_id: u32)
    requires
        s.active matches Some(c) && c.peer_id == peer,
    ensures
        on_message(s, peer, read_message(wire(RecoveryMessage::Detach { attach_id }))->Ok_0).0.active is None,
{
    lemma_decode_encode(RecoveryMessage::Detach { attach_id });
}

} // verus!
