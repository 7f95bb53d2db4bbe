use vstd::prelude::*;

verus! {

/// A message for the network: the peer it is for and the bytes to deliver.
///
/// Neither field is checked here; whether the recipient exists is for the
/// network to find out.
#[derive(Clone, Debug)]
pub struct SendRequest {
    recipient: String,
    payload: Vec<u8>,
}

impl View for SendRequest {
    /// The recipient's characters and the payload's bytes.
    type V = (Seq<char>, Seq<u8>);

    closed spec fn view(&self) -> (Seq<char>, Seq<u8>) {
        (self.recipient@, self.payload@)
    }
}

impl SendRequest {
    pub fn new(recipient: String, payload: Vec<u8>) -> (r: Self)
        ensures
            r@ == (recipient@, payload@),
    {
        SendRequest { recipient, payload }
    }

    pub fn recipient(&self) -> (r: &str)
        ensures
            r@ == self@.0,
    {
        self.recipient.as_str()
    }

    pub fn payload(&self) -> (r: &[u8])
        ensures
            r@ == self@.1,
    {
        self.payload.as_slice()
    }
}

} // verus!
