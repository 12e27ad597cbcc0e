//! A one-slot mailbox between the widgets of one frame: the first message
//! written in a frame wins, and every handler reads that one.
use vstd::prelude::*;

verus! {

#[derive(Clone, Copy, Debug, PartialEq, Eq, Structural)]
pub enum Message {
    CardHovered(usize),
    CardClicked(usize),
    Start,
    DeckClicked,
    PlayHand,
    DiscardHand,
    BackToGame,
}

/// The sending end: it takes one message per frame, into the mailbox.
#[derive(Clone, Copy, Debug)]
pub struct Writer {
    pub lock: bool,
}

impl Writer {
    pub fn new() -> (r: Writer)
        ensures
            !r.lock,
    {
        Writer { lock: false }
    }

    /// Puts `msg` in the mailbox unless this writer already wrote this
    /// frame; the refused message comes back as the error.
    pub fn write(&mut self, buf: &mut MessageBuffer, msg: Message) -> (r: Result<(), Message>)
        ensures
            old(self).lock ==> r == Err::<(), Message>(msg) && *final(self) == *old(self) && *final(buf) == *old(buf),
            !old(self).lock ==> r == Ok::<(), Message>(()) && final(self).lock && final(buf).message == Some(msg),
    {
        if self.lock {
            Err(msg)
        } else {
            self.lock = true;
            buf.message = Some(msg);
            Ok(())
        }
    }
}

/// The receiving end: it reads what the mailbox holds.
#[derive(Clone, Copy, Debug)]
pub struct Reader;

impl Reader {
    pub fn new() -> (r: Reader) {
        Reader
    }

    /// The message in the mailbox, if any; reading changes nothing.
    pub fn read(&self, buf: &MessageBuffer) -> (r: Option<Message>)
        ensures
            r == buf.message,
    {
        buf.message
    }
}

/// The mailbox itself, shared by the writer and the reader of a frame.
#[derive(Clone, Copy, Debug)]
pub struct MessageBuffer {
    pub message: Option<Message>,
}

impl MessageBuffer {
    pub fn new() -> (r: MessageBuffer)
        ensures
            r.message is None,
    {
        MessageBuffer { message: None }
    }

    /// A fresh writer and a reader for this mailbox.
    pub fn get_channel(&mut self) -> (r: (Writer, Reader))
        ensures
            *final(self) == *old(self),
            !r.0.lock,
    {
        (Writer::new(), Reader::new())
    }
}

/// Something that reacts to the frame's message.
pub trait MessageHandler {
    fn handle_message(&mut self, rx: &Reader, buf: &MessageBuffer);
}

} // verus!
