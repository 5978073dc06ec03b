use vstd::prelude::*;

verus! {

/// Path parameters of an artifact request.
#[derive(Debug)]
pub struct DeployParams {
    pub uuid: String,
    pub program_name: String,
}

/// A compiled binary as it is sent to the client.
#[derive(Debug)]
pub struct BinaryData(pub Vec<u8>);

impl BinaryData {
    /// Number of bytes sent.
    pub fn content_length(&self) -> (r: usize)
        ensures
            r == self.0@.len(),
    {
        self.0.len()
    }

    /// Whether the binary starts with the ELF magic bytes `7F 'E' 'L' 'F'`.
    pub fn has_elf_magic(&self) -> (r: bool)
        ensures
            r == (self.0@.len() >= 4 && self.0@[0] == 0x7fu8 && self.0@[1] == 0x45u8
                && self.0@[2] == 0x4cu8 && self.0@[3] == 0x46u8),
    {
        self.0.len() >= 4 && self.0[0] == 0x7f && self.0[1] == 0x45 && self.0[2] == 0x4c && self.0[3] == 0x46
    }
}

/// Query of an RPC forwarding request.
#[derive(Debug)]
pub struct RpcProxyQuery {
    /// Where to forward to, if not to the default endpoint.
    pub target: Option<String>,
}

impl RpcProxyQuery {
    /// The endpoint to forward to: the requested one, else `default`.
    pub fn target_url(&self, default: &str) -> (r: String)
        ensures
            r@ == match self.target {
                Some(t) => t@,
                None => default@,
            },
    {
        match &self.target {
            Some(t) => t.clone(),
            None => String::from_str(default),
        }
    }
}

} // verus!
