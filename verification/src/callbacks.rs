//! The callback registry: at most one implementation for each kind of
//! callback, and the entry points through which the runtime reaches them.
//!
//! An entry point forwards to the implementation in its slot and hands back
//! what it answers. Where the slot is empty it answers with a fixed default
//! and touches nothing.
//!
//! The two traits are for the host to implement. Each method comes with a
//! relation between its arguments and its answer, `true` unless an
//! implementation says more; the entry points promise the relation of the
//! implementation they forward to.

use vstd::prelude::*;
use crate::descriptor::Attribute;
use crate::error::{EmberAfStatus, EmberAfStatus_EMBER_ZCL_STATUS_FAILURE, CHIP_ERROR};
use crate::zcl::{chip_ClusterId, chip_CommandId, chip_EndpointId};

verus! {

/// The general status "not implemented": the answer of a commissioning data
/// entry point without a provider.
pub const CHIP_ERROR_NOT_IMPLEMENTED: CHIP_ERROR = 0x2d;

/// Handle of the runtime's object through which a command is answered. The
/// library carries it and never looks inside.
#[derive(Copy, Clone, Debug, PartialEq, Eq, Structural)]
pub struct CommandHandler(pub usize);

/// Where a command is addressed: endpoint, cluster and command.
#[derive(Copy, Clone, Debug, PartialEq, Eq, Structural)]
pub struct ConcreteCommandPath {
    pub endpoint_id: chip_EndpointId,
    pub cluster_id: chip_ClusterId,
    pub command_id: chip_CommandId,
}

/// The fields of an instant action command.
#[derive(Copy, Clone, Debug, PartialEq, Eq, Structural)]
pub struct InstantAction {
    pub action_id: u16,
    pub invoke_id: Option<u32>,
}

/// Action invocation and attribute access, answered by the host.
pub trait EmberCallback {
    /// `handled` is an answer of this implementation to the instant action.
    open spec fn instant_action_answer(
        &self,
        command_obj: CommandHandler,
        command_path: ConcreteCommandPath,
        command_data: InstantAction,
        handled: bool,
    ) -> bool {
        true
    }

    /// Carries out an instant action; says whether the command was dealt
    /// with.
    fn cluster_instant_action(
        &self,
        command_obj: CommandHandler,
        command_path: &ConcreteCommandPath,
        command_data: &InstantAction,
    ) -> (handled: bool)
        ensures
            self.instant_action_answer(command_obj, *command_path, *command_data, handled),
    ;

    /// `status`, with the buffer changed from `before` to `after`, is an
    /// answer of this implementation to the read.
    open spec fn read_answer(
        &self,
        endpoint_id: chip_EndpointId,
        cluster_id: chip_ClusterId,
        attribute: Attribute,
        before: Seq<u8>,
        after: Seq<u8>,
        status: EmberAfStatus,
    ) -> bool {
        true
    }

    /// Reads an attribute's value into `buffer`, whose length is the most
    /// that may be written.
    fn external_attribute_read(
        &self,
        endpoint_id: chip_EndpointId,
        cluster_id: chip_ClusterId,
        attribute: &Attribute,
        buffer: &mut [u8],
    ) -> (status: EmberAfStatus)
        ensures
            self.read_answer(
                endpoint_id,
                cluster_id,
                *attribute,
                old(buffer)@,
                final(buffer)@,
                status,
            ),
    ;

    /// `status` is an answer of this implementation to the write.
    open spec fn write_answer(
        &self,
        endpoint_id: chip_EndpointId,
        cluster_id: chip_ClusterId,
        attribute: Attribute,
        buffer: Seq<u8>,
        status: EmberAfStatus,
    ) -> bool {
        true
    }

    /// Takes an attribute's new value from `buffer`.
    fn external_attribute_write(
        &self,
        endpoint_id: chip_EndpointId,
        cluster_id: chip_ClusterId,
        attribute: &Attribute,
        buffer: &[u8],
    ) -> (status: EmberAfStatus)
        ensures
            self.write_answer(endpoint_id, cluster_id, *attribute, buffer@, status),
    ;
}

/// The values that a device is paired with, supplied by the host.
///
/// A getter writes through its parameters and answers with a status. A span
/// comes in with the length that may be written at most and goes out with
/// the bytes that were written.
pub trait ComissionableDataProviderCallback {
    /// `status`, with `after` in place of `before`, is an answer of this
    /// implementation to the request for the discriminator.
    open spec fn setup_discriminator_answer(
        &self,
        before: u16,
        after: u16,
        status: CHIP_ERROR,
    ) -> bool {
        true
    }

    /// Writes the setup discriminator.
    fn get_setup_discriminator(&self, setup_discriminator: &mut u16) -> (status: CHIP_ERROR)
        ensures
            self.setup_discriminator_answer(
                *old(setup_discriminator),
                *final(setup_discriminator),
                status,
            ),
    ;

    /// `status`, with `after` in place of `before`, is an answer of this
    /// implementation to the request for the passcode.
    open spec fn setup_passcode_answer(&self, before: u32, after: u32, status: CHIP_ERROR) -> bool {
        true
    }

    /// Writes the setup passcode.
    fn get_setup_passcode(&self, setup_passcode: &mut u32) -> (status: CHIP_ERROR)
        ensures
            self.setup_passcode_answer(*old(setup_passcode), *final(setup_passcode), status),
    ;

    /// `status`, with `after` in place of `before`, is an answer of this
    /// implementation to the request for the iteration count.
    open spec fn spake2p_iteration_count_answer(
        &self,
        before: u32,
        after: u32,
        status: CHIP_ERROR,
    ) -> bool {
        true
    }

    /// Writes the iteration count of the key derivation.
    fn get_spake2p_iteration_count(&self, iteration_count: &mut u32) -> (status: CHIP_ERROR)
        ensures
            self.spake2p_iteration_count_answer(
                *old(iteration_count),
                *final(iteration_count),
                status,
            ),
    ;

    /// A span of `size` bytes is large enough for the salt of this
    /// implementation.
    open spec fn salt_fits(&self, size: nat) -> bool {
        true
    }

    /// `status`, with the span changed from `before` to `after`, is an
    /// answer of this implementation to the request for the salt.
    open spec fn spake2p_salt_answer(
        &self,
        before: Seq<u8>,
        after: Seq<u8>,
        status: CHIP_ERROR,
    ) -> bool {
        true
    }

    /// Writes the salt of the key derivation into the span.
    fn get_spake2p_salt(&self, salt_buf: &mut Vec<u8>) -> (status: CHIP_ERROR)
        requires
            self.salt_fits(old(salt_buf)@.len()),
        ensures
            self.spake2p_salt_answer(old(salt_buf)@, final(salt_buf)@, status),
    ;

    /// A span of `size` bytes is large enough for the verifier of this
    /// implementation.
    open spec fn verifier_fits(&self, size: nat) -> bool {
        true
    }

    /// `status`, with the span changed from `before` to `after` and the
    /// length from `len_before` to `len_after`, is an answer of this
    /// implementation to the request for the verifier.
    open spec fn spake2p_verifier_answer(
        &self,
        before: Seq<u8>,
        after: Seq<u8>,
        len_before: usize,
        len_after: usize,
        status: CHIP_ERROR,
    ) -> bool {
        true
    }

    /// Writes the verifier into the span, and its length.
    fn get_spake2p_verifier(
        &self,
        verifier_buf: &mut Vec<u8>,
        out_verifier_len: &mut usize,
    ) -> (status: CHIP_ERROR)
        requires
            self.verifier_fits(old(verifier_buf)@.len()),
        ensures
            self.spake2p_verifier_answer(
                old(verifier_buf)@,
                final(verifier_buf)@,
                *old(out_verifier_len),
                *final(out_verifier_len),
                status,
            ),
    ;
}

/// Writes `bytes` into a span: copies them to its start and cuts it to
/// them. The span must hold at least as many bytes as are written.
pub fn fill_span(span: &mut Vec<u8>, bytes: &[u8])
    requires
        bytes@.len() <= old(span)@.len(),
    ensures
        final(span)@ == bytes@,
{
    let n = bytes.len();
    let mut i: usize = 0;
    while i < n
        invariant
            n == bytes@.len(),
            n <= span@.len(),
            span@.len() == old(span)@.len(),
            i <= n,
            forall|j: int| 0 <= j < i ==> #[trigger] span@[j] == bytes@[j],
        decreases n - i,
    {
        span.set(i, bytes[i]);
        i += 1;
    }
    span.truncate(n);
    assert(span@ =~= bytes@);
}

/// The callback slots of a process, each empty or holding one
/// implementation: the pair that locks and unlocks the runtime, the
/// attribute and action callback, the hook that runs when the actions
/// server starts, and the commissioning data provider.
pub struct Callbacks<L, U, E, I, P> {
    pub lock: Option<(L, U)>,
    pub ember: Option<E>,
    pub actions_plugin_server_init: Option<I>,
    pub comissionable_data_provider: Option<P>,
}

/// Fills the slots. To be done once, at the start, while nothing else runs.
pub fn initialize<L, U, E, I, P>(
    lock: Option<(L, U)>,
    af: Option<E>,
    init: Option<I>,
    provider: Option<P>,
) -> (r: Callbacks<L, U, E, I, P>)
    ensures
        r.lock == lock,
        r.ember == af,
        r.actions_plugin_server_init == init,
        r.comissionable_data_provider == provider,
{
    Callbacks {
        lock,
        ember: af,
        actions_plugin_server_init: init,
        comissionable_data_provider: provider,
    }
}

/// Runs `f` between the lock and the unlock of `hooks`, or on its own where
/// there is no such pair, and returns what `f` returns.
///
/// The order is part of what is asked of the caller's functions: `f` need
/// only be callable once the lock was taken, and the unlock once `f` has
/// returned. So the lock comes first, then `f`, then the unlock.
pub fn lock<L, U, F, R>(hooks: &Option<(L, U)>, f: F) -> (r: R) where
    L: Fn(),
    U: Fn(),
    F: FnOnce() -> R,

    requires
        hooks is None ==> f.requires(()),
        hooks matches Some(pair) ==> pair.0.requires(()),
        hooks matches Some(pair) ==> (pair.0.ensures((), ()) ==> f.requires(())),
        hooks matches Some(pair) ==> (forall|res: R| #[trigger]
            f.ensures((), res) ==> pair.1.requires(())),
    ensures
        f.ensures((), r),
        hooks matches Some(pair) ==> pair.0.ensures((), ()) && pair.1.ensures((), ()),
{
    match hooks {
        Some(pair) => {
            (pair.0)();
            let res = f();
            (pair.1)();
            res
        },
        None => f(),
    }
}

impl<L, U, E, I, P> Callbacks<L, U, E, I, P> where
    L: Fn(),
    U: Fn(),
    E: EmberCallback,
    I: Fn(),
    P: ComissionableDataProviderCallback,
 {
    /// Entry point of an instant action: the answer of the installed
    /// callback, or `true` without one.
    pub fn cluster_instant_action(
        &self,
        command_obj: CommandHandler,
        command_path: &ConcreteCommandPath,
        command_data: &InstantAction,
    ) -> (handled: bool)
        ensures
            match self.ember {
                Some(cb) => cb.instant_action_answer(
                    command_obj,
                    *command_path,
                    *command_data,
                    handled,
                ),
                None => handled,
            },
    {
        match &self.ember {
            Some(cb) => cb.cluster_instant_action(command_obj, command_path, command_data),
            None => true,
        }
    }

    /// Entry point of an attribute read: the answer of the installed
    /// callback, or the failure status and an untouched buffer without one.
    pub fn external_attribute_read(
        &self,
        endpoint_id: chip_EndpointId,
        cluster_id: chip_ClusterId,
        attribute: &Attribute,
        buffer: &mut [u8],
    ) -> (status: EmberAfStatus)
        ensures
            match self.ember {
                Some(cb) => cb.read_answer(
                    endpoint_id,
                    cluster_id,
                    *attribute,
                    old(buffer)@,
                    final(buffer)@,
                    status,
                ),
                None => status == EmberAfStatus_EMBER_ZCL_STATUS_FAILURE
                    && final(buffer)@ == old(buffer)@,
            },
    {
        match &self.ember {
            Some(cb) => cb.external_attribute_read(endpoint_id, cluster_id, attribute, buffer),
            None => EmberAfStatus_EMBER_ZCL_STATUS_FAILURE,
        }
    }

    /// Entry point of an attribute write: the answer of the installed
    /// callback, or the failure status without one.
    pub fn external_attribute_write(
        &self,
        endpoint_id: chip_EndpointId,
        cluster_id: chip_ClusterId,
        attribute: &Attribute,
        buffer: &[u8],
    ) -> (status: EmberAfStatus)
        ensures
            match self.ember {
                Some(cb) => cb.write_answer(endpoint_id, cluster_id, *attribute, buffer@, status),
                None => status == EmberAfStatus_EMBER_ZCL_STATUS_FAILURE,
            },
    {
        match &self.ember {
            Some(cb) => cb.external_attribute_write(endpoint_id, cluster_id, attribute, buffer),
            None => EmberAfStatus_EMBER_ZCL_STATUS_FAILURE,
        }
    }

    /// Entry point of the start of the actions server: runs the installed
    /// hook, or nothing without one.
    pub fn actions_plugin_server_init(&self)
        requires
            self.actions_plugin_server_init matches Some(init) ==> init.requires(()),
        ensures
            self.actions_plugin_server_init matches Some(init) ==> init.ensures((), ()),
    {
        match &self.actions_plugin_server_init {
            Some(init) => init(),
            None => {},
        }
    }

    /// Entry point for the setup discriminator: the answer of the installed
    /// provider, or "not implemented" and nothing written without one.
    pub fn get_setup_discriminator(&self, setup_discriminator: &mut u16) -> (status: CHIP_ERROR)
        ensures
            match self.comissionable_data_provider {
                Some(cb) => cb.setup_discriminator_answer(
                    *old(setup_discriminator),
                    *final(setup_discriminator),
                    status,
                ),
                None => status == CHIP_ERROR_NOT_IMPLEMENTED
                    && *final(setup_discriminator) == *old(setup_discriminator),
            },
    {
        match &self.comissionable_data_provider {
            Some(cb) => cb.get_setup_discriminator(setup_discriminator),
            None => CHIP_ERROR_NOT_IMPLEMENTED,
        }
    }

    /// Entry point for the iteration count: the answer of the installed
    /// provider, or "not implemented" and nothing written without one.
    pub fn get_spake2p_iteration_count(&self, iteration_count: &mut u32) -> (status: CHIP_ERROR)
        ensures
            match self.comissionable_data_provider {
                Some(cb) => cb.spake2p_iteration_count_answer(
                    *old(iteration_count),
                    *final(iteration_count),
                    status,
                ),
                None => status == CHIP_ERROR_NOT_IMPLEMENTED
                    && *final(iteration_count) == *old(iteration_count),
            },
    {
        match &self.comissionable_data_provider {
            Some(cb) => cb.get_spake2p_iteration_count(iteration_count),
            None => CHIP_ERROR_NOT_IMPLEMENTED,
        }
    }

    /// Entry point for the salt: the answer of the installed provider, or
    /// "not implemented" and an untouched span without one.
    pub fn get_spake2p_salt(&self, salt_buf: &mut Vec<u8>) -> (status: CHIP_ERROR)
        requires
            self.comissionable_data_provider matches Some(cb) ==> cb.salt_fits(
                old(salt_buf)@.len(),
            ),
        ensures
            match self.comissionable_data_provider {
                Some(cb) => cb.spake2p_salt_answer(old(salt_buf)@, final(salt_buf)@, status),
                None => status == CHIP_ERROR_NOT_IMPLEMENTED && final(salt_buf)@ == old(salt_buf)@,
            },
    {
        match &self.comissionable_data_provider {
            Some(cb) => cb.get_spake2p_salt(salt_buf),
            None => CHIP_ERROR_NOT_IMPLEMENTED,
        }
    }

    /// Entry point for the verifier: the answer of the installed provider,
    /// or "not implemented" and nothing written without one.
    pub fn get_spake2p_verifier(
        &self,
        verifier_buf: &mut Vec<u8>,
        out_verifier_len: &mut usize,
    ) -> (status: CHIP_ERROR)
        requires
            self.comissionable_data_provider matches Some(cb) ==> cb.verifier_fits(
                old(verifier_buf)@.len(),
            ),
        ensures
            match self.comissionable_data_provider {
                Some(cb) => cb.spake2p_verifier_answer(
                    old(verifier_buf)@,
                    final(verifier_buf)@,
                    *old(out_verifier_len),
                    *final(out_verifier_len),
                    status,
                ),
                None => {
                    &&& status == CHIP_ERROR_NOT_IMPLEMENTED
                    &&& final(verifier_buf)@ == old(verifier_buf)@
                    &&& *final(out_verifier_len) == *old(out_verifier_len)
                },
            },
    {
        match &self.comissionable_data_provider {
            Some(cb) => cb.get_spake2p_verifier(verifier_buf, out_verifier_len),
            None => CHIP_ERROR_NOT_IMPLEMENTED,
        }
    }

    /// Entry point for the setup passcode: the answer of the installed
    /// provider, or "not implemented" and nothing written without one.
    pub fn get_setup_passcode(&self, setup_passcode: &mut u32) -> (status: CHIP_ERROR)
        ensures
            match self.comissionable_data_provider {
                Some(cb) => cb.setup_passcode_answer(
                    *old(setup_passcode),
                    *final(setup_passcode),
                    status,
                ),
                None => status == CHIP_ERROR_NOT_IMPLEMENTED
                    && *final(setup_passcode) == *old(setup_passcode),
            },
    {
        match &self.comissionable_data_provider {
            Some(cb) => cb.get_setup_passcode(setup_passcode),
            None => CHIP_ERROR_NOT_IMPLEMENTED,
        }
    }
}

} // verus!
