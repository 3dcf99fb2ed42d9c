//! Loadable plugins: commands that a trusted application sends through the
//! TEE supplicant to a plugin in the normal world, with a shared buffer that
//! carries the request there and the response back.

use vstd::prelude::*;
use crate::defines::TEE_SUCCESS;
use crate::error::{Error, ErrorKind, Result, is_code_error, is_kind_error};
use crate::uuid::Uuid;

verus! {

/// The shared buffer of a command: the request body, padded with zeros up to
/// the capacity that the command was made with; a longer body grows it.
pub open spec fn shared_buffer(body: Seq<u8>, capacity: nat) -> Seq<u8> {
    if body.len() >= capacity {
        body
    } else {
        body + Seq::new((capacity - body.len()) as nat, |i: int| 0u8)
    }
}

/// A plugin in the normal world, named by its UUID.
pub struct LoadablePlugin {
    uuid: Uuid,
}

impl LoadablePlugin {
    pub closed spec fn spec_uuid(&self) -> Uuid {
        self.uuid
    }

    /// The plugin of `uuid`.
    pub fn new(uuid: &Uuid) -> (p: LoadablePlugin)
        ensures
            p.spec_uuid() == *uuid,
    {
        LoadablePlugin { uuid: *uuid }
    }

    /// The UUID of the plugin.
    pub fn uuid(&self) -> (u: Uuid)
        ensures
            u == self.spec_uuid(),
    {
        self.uuid
    }

    /// The command that posts `data` to the plugin, with a shared buffer of
    /// the length of `data`: a response longer than that comes back as
    /// `ShortBuffer` (use `invoke_with_capacity` then).
    pub fn invoke(&self, command_id: u32, subcommand_id: u32, data: &[u8]) -> (c:
        LoadablePluginCommand)
        ensures
            c.spec_uuid() == self.spec_uuid(),
            c.spec_cmd_id() == command_id,
            c.spec_sub_cmd_id() == subcommand_id,
            c.spec_capacity() == data@.len(),
            c.spec_body() == data@,
            c.spec_shared_buffer() == data@,
    {
        let c = self.invoke_with_capacity(command_id, subcommand_id, data.len()).chain_write_body(data);
        assert(shared_buffer(data@, data@.len()) =~= data@);
        c
    }

    /// A command with an empty body and a shared buffer of `capacity` bytes,
    /// to be written and then called.
    pub fn invoke_with_capacity(&self, command_id: u32, subcommand_id: u32, capacity: usize) -> (c:
        LoadablePluginCommand)
        ensures
            c.spec_uuid() == self.spec_uuid(),
            c.spec_cmd_id() == command_id,
            c.spec_sub_cmd_id() == subcommand_id,
            c.spec_capacity() == capacity,
            c.spec_body() == Seq::<u8>::empty(),
    {
        LoadablePluginCommand::new_with_capacity(self, command_id, subcommand_id, capacity)
    }
}

/// A command for a plugin, with the request body written so far.
pub struct LoadablePluginCommand {
    uuid: Uuid,
    cmd_id: u32,
    sub_cmd_id: u32,
    capacity: usize,
    buffer: Vec<u8>,
}

impl LoadablePluginCommand {
    pub closed spec fn spec_uuid(&self) -> Uuid {
        self.uuid
    }

    pub closed spec fn spec_cmd_id(&self) -> u32 {
        self.cmd_id
    }

    pub closed spec fn spec_sub_cmd_id(&self) -> u32 {
        self.sub_cmd_id
    }

    pub closed spec fn spec_capacity(&self) -> nat {
        self.capacity as nat
    }

    pub closed spec fn spec_body(&self) -> Seq<u8> {
        self.buffer@
    }

    /// The shared buffer that the call hands to the plugin.
    pub open spec fn spec_shared_buffer(&self) -> Seq<u8> {
        shared_buffer(self.spec_body(), self.spec_capacity())
    }

    fn new_with_capacity(plugin: &LoadablePlugin, cmd_id: u32, sub_cmd_id: u32, capacity: usize) -> (c:
        LoadablePluginCommand)
        ensures
            c.spec_uuid() == plugin.spec_uuid(),
            c.spec_cmd_id() == cmd_id,
            c.spec_sub_cmd_id() == sub_cmd_id,
            c.spec_capacity() == capacity,
            c.spec_body() == Seq::<u8>::empty(),
    {
        LoadablePluginCommand {
            uuid: plugin.uuid,
            cmd_id,
            sub_cmd_id,
            capacity,
            buffer: Vec::new(),
        }
    }

    /// The plugin's UUID.
    pub fn uuid(&self) -> (u: Uuid)
        ensures
            u == self.spec_uuid(),
    {
        self.uuid
    }

    /// The command's identifier.
    pub fn cmd_id(&self) -> (v: u32)
        ensures
            v == self.spec_cmd_id(),
    {
        self.cmd_id
    }

    /// The subcommand's identifier.
    pub fn sub_cmd_id(&self) -> (v: u32)
        ensures
            v == self.spec_sub_cmd_id(),
    {
        self.sub_cmd_id
    }

    /// Appends `data` to the request body.
    pub fn write_body(&mut self, data: &[u8])
        requires
            old(self).spec_body().len() + data@.len() <= usize::MAX,
        ensures
            final(self).spec_body() == old(self).spec_body() + data@,
            final(self).spec_uuid() == old(self).spec_uuid(),
            final(self).spec_cmd_id() == old(self).spec_cmd_id(),
            final(self).spec_sub_cmd_id() == old(self).spec_sub_cmd_id(),
            final(self).spec_capacity() == old(self).spec_capacity(),
    {
        self.buffer.extend_from_slice(data);
    }

    /// Appends `data` to the request body, and hands the command on.
    pub fn chain_write_body(self, data: &[u8]) -> (c: LoadablePluginCommand)
        requires
            self.spec_body().len() + data@.len() <= usize::MAX,
        ensures
            c.spec_body() == self.spec_body() + data@,
            c.spec_uuid() == self.spec_uuid(),
            c.spec_cmd_id() == self.spec_cmd_id(),
            c.spec_sub_cmd_id() == self.spec_sub_cmd_id(),
            c.spec_capacity() == self.spec_capacity(),
    {
        let mut c = self;
        c.write_body(data);
        c
    }

    /// The shared buffer to hand to the plugin: the body padded with zeros up
    /// to the capacity.
    pub fn request_buffer(&self) -> (b: Vec<u8>)
        ensures
            b@ == self.spec_shared_buffer(),
    {
        let mut b = vstd::slice::slice_to_vec(self.buffer.as_slice());
        if b.len() < self.capacity {
            b.resize(self.capacity, 0u8);
        }
        assert(b@ =~= self.spec_shared_buffer());
        b
    }

    /// The response of the plugin, from the call's status, the shared buffer
    /// as the plugin left it and the length it reported: the error of the
    /// status if it is not success, `ShortBuffer` if the length is beyond the
    /// buffer, else the first `outlen` bytes of the buffer.
    pub fn call(self, status: u32, buffer: Vec<u8>, outlen: usize) -> (r: Result<Vec<u8>>)
        ensures
            status != TEE_SUCCESS ==> (r matches Err(e) && is_code_error(e, status)),
            status == TEE_SUCCESS && outlen > buffer@.len() ==> (r matches Err(e) && is_kind_error(
                e,
                ErrorKind::ShortBuffer,
            )),
            status == TEE_SUCCESS && outlen <= buffer@.len() ==> (r matches Ok(v) && v@
                == buffer@.take(outlen as int)),
    {
        if status == TEE_SUCCESS {
            if outlen > buffer.len() {
                return Err(Error::from_kind(ErrorKind::ShortBuffer));
            }
            let mut buffer = buffer;
            buffer.truncate(outlen);
            Ok(buffer)
        } else {
            Err(Error::from_raw_error(status))
        }
    }
}

/// The shared buffer starts with the body, is as long as the longer of the
/// body and the capacity, and is zero past the body.
pub proof fn lemma_shared_buffer(body: Seq<u8>, capacity: nat)
    ensures
        shared_buffer(body, capacity).len() == if body.len() >= capacity {
            body.len()
        } else {
            capacity
        },
        shared_buffer(body, capacity).take(body.len() as int) == body,
        forall|i: int|
            body.len() <= i < shared_buffer(body, capacity).len() ==> #[trigger] shared_buffer(
                body,
                capacity,
            )[i] == 0,
{
    assert(shared_buffer(body, capacity).take(body.len() as int) =~= body);
}

} // verus!
