//! The gossip that a peer sends to its subscribers: random alphanumeric text,
//! put on a broadcast channel that every subscription listens to.

use rand::Rng;
use tokio::sync::broadcast::Sender;
use vstd::prelude::*;

verus! {

#[verifier::external_type_specification]
#[verifier::external_body]
#[verifier::reject_recursive_types(T)]
pub struct ExSender<T>(Sender<T>);

/// The capacity that a broadcast channel was opened with: the number of
/// messages it was asked to buffer (tokio rounds the buffer it allocates up
/// to a power of two).
pub uninterp spec fn channel_capacity(tx: Sender<String>) -> nat;

/// `tokio::sync::broadcast::channel`, the sending half kept: tokio panics on a
/// capacity of zero or above `usize::MAX / 2`, which `requires` leaves out.
/// Claims that the channel was opened with the given capacity. The receiving
/// half is dropped here, so no receiver is left when the call returns, but
/// nothing is claimed of the receivers: other tasks subscribe and leave.
#[verifier::external_body]
pub(crate) fn open_channel(capacity: usize) -> (tx: Sender<String>)
    requires
        0 < capacity <= usize::MAX / 2,
    ensures
        channel_capacity(tx) == capacity,
{
    tokio::sync::broadcast::channel(capacity).0
}

/// `Sender::receiver_count`: the number of receivers subscribed at the time
/// of the call, which other tasks change; nothing is claimed of it.
#[verifier::external_body]
pub(crate) fn listener_count(tx: &Sender<String>) -> (n: usize) {
    tx.receiver_count()
}

/// `Sender::send`: `None` where the channel had no receiver; otherwise the
/// number of receivers it was handed to, which tokio's source shows to be at
/// least one.
#[verifier::external_body]
pub(crate) fn broadcast_message(tx: &Sender<String>, message: String) -> (sent: Option<usize>)
    ensures
        sent matches Some(n) ==> n >= 1,
{
    match tx.send(message) {
        Ok(n) => Some(n),
        Err(_) => None,
    }
}

/// Whether a character is an ASCII letter or digit.
pub open spec fn is_alphanumeric(c: char) -> bool {
    ||| ('A' <= c && c <= 'Z')
    ||| ('a' <= c && c <= 'z')
    ||| ('0' <= c && c <= '9')
}

/// `Rng::sample` of `rand::distributions::Alphanumeric` on the thread's
/// generator: claims what rand's source shows, that the byte is one of the 62
/// ASCII letters and digits.
#[verifier::external_body]
fn random_alphanumeric() -> (c: char)
    ensures
        is_alphanumeric(c),
{
    rand::thread_rng().sample(rand::distributions::Alphanumeric) as char
}

/// `String::push`: the character is appended.
#[verifier::external_body]
fn push_char(s: &mut String, c: char)
    ensures
        final(s)@ == old(s)@.push(c),
{
    s.push(c)
}

/// How many characters a gossip message has.
pub const GOSSIP_MESSAGE_LEN: usize = 30;

/// Whether a text has the form of a gossip message.
pub open spec fn is_gossip_text(text: Seq<char>) -> bool {
    &&& text.len() == GOSSIP_MESSAGE_LEN
    &&& forall|i: int| 0 <= i < text.len() ==> is_alphanumeric(#[trigger] text[i])
}

/// A fresh random gossip message.
pub fn gossip_message() -> (text: String)
    ensures
        is_gossip_text(text@),
{
    let mut text = String::new();
    let mut i: usize = 0;
    while i < GOSSIP_MESSAGE_LEN
        invariant
            i <= GOSSIP_MESSAGE_LEN,
            text@.len() == i,
            forall|j: int| 0 <= j < i ==> is_alphanumeric(#[trigger] text@[j]),
        decreases GOSSIP_MESSAGE_LEN - i,
    {
        let c = random_alphanumeric();
        push_char(&mut text, c);
        i = i + 1;
    }
    text
}

/// What one tick of the gossip producer did.
pub enum GossipRound {
    /// Nobody listened, so nothing was produced.
    Quiet,
    /// The message was handed to this many receivers.
    Sent { message: String, receivers: usize },
    /// The message was produced, but the last receiver left before it could
    /// be handed over.
    Unsent { message: String },
}

/// Whether a tick produces gossip, given how many receivers listen: only
/// when somebody does.
pub fn gossip_wanted(listeners: usize) -> (wanted: bool)
    ensures
        wanted == (listeners > 0),
{
    listeners != 0
}

/// The outcome of a tick that produced `message`, given what sending it
/// returned (`None`: no receiver was left).
pub fn settle_round(message: String, sent: Option<usize>) -> (round: GossipRound)
    ensures
        sent matches Some(n) ==> round == (GossipRound::Sent { message, receivers: n }),
        sent is None ==> round == (GossipRound::Unsent { message }),
{
    match sent {
        Some(n) => GossipRound::Sent { message, receivers: n },
        None => GossipRound::Unsent { message },
    }
}

/// One tick of the gossip producer on a channel that `listeners` receivers
/// were found to listen to: with none, the tick is quiet; with any, a gossip
/// message is produced and sent, and the tick is never quiet.
pub fn gossip_round_for(tx: &Sender<String>, listeners: usize) -> (round: GossipRound)
    ensures
        round is Quiet <==> listeners == 0,
        round matches GossipRound::Sent { message, receivers } ==> receivers >= 1
            && is_gossip_text(message@),
        round matches GossipRound::Unsent { message } ==> is_gossip_text(message@),
{
    if !gossip_wanted(listeners) {
        return GossipRound::Quiet;
    }
    let message = gossip_message();
    let kept = message.clone();
    let sent = broadcast_message(tx, message);
    settle_round(kept, sent)
}

/// One tick of the gossip producer: when the channel has listeners, produce a
/// gossip message and send it. Which outcome comes depends on the receivers
/// that other tasks hold; whatever it is, a message that was produced has the
/// form of gossip, and one that was sent reached at least one receiver.
pub fn gossip_round(tx: &Sender<String>) -> (round: GossipRound)
    ensures
        round matches GossipRound::Sent { message, receivers } ==> receivers >= 1
            && is_gossip_text(message@),
        round matches GossipRound::Unsent { message } ==> is_gossip_text(message@),
{
    let listeners = listener_count(tx);
    gossip_round_for(tx, listeners)
}

} // verus!
