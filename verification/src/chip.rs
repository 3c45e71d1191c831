//! Endpoints of a bridge: the fixed ones and the registrations of dynamic
//! ones against the endpoint table.
//!
//! What only the runtime can do is handed in by the caller as a function:
//! this module decides when it is called, with which arguments, and what
//! its answer means.

use vstd::prelude::*;
use core::marker::PhantomData;
use core::sync::atomic::{AtomicBool, Ordering};
use std::rc::Rc;
use crate::callbacks::{Callbacks, CommandHandler, ConcreteCommandPath, InstantAction};
pub use crate::descriptor::{
    Attribute, AttributeIterator, Attributes, Cluster, ClusterIterator, Clusters, Command,
    Commands, DeviceType, DeviceTypes, EndpointType,
};
pub use crate::dynamic::TestComissionableDataProvider;
pub use crate::table::{ENDPOINT_COUNT, ENDPOINT_ID_RANGE_START};
use crate::error::{ChipError, EmberAfError, EmberAfStatus, CHIP_ERROR};
use crate::table::{
    dynamic_slot, is_first_index, is_registered, registered, released, request_for, EndpointTable,
};
use crate::zcl::{chip_AttributeId, chip_ClusterId, chip_DataVersion, chip_EndpointId};

verus! {

/// The right to talk to the runtime: a caller holds it while it runs on the
/// runtime's own terms, either as the one context of the process or inside
/// [`lock`].
pub struct ChipContext(bool, PhantomData<Rc<()>>);

impl ChipContext {
    /// This is the one context that [`ChipContext::take`] hands out, not a
    /// passing one.
    pub closed spec fn is_owner(&self) -> bool {
        self.0
    }

    /// What [`ChipContext::take`] makes of the flag's answer: the context
    /// where the flag was still clear and this call set it, else the error
    /// with code 1.
    pub fn claimed(exchange: Result<bool, bool>) -> (r: Result<Self, ChipError>)
        ensures
            exchange == Ok::<bool, bool>(false) ==> r is Ok && r->Ok_0.is_owner(),
            exchange != Ok::<bool, bool>(false) ==> r == Err::<Self, ChipError>(ChipError(1)),
    {
        if let Ok(false) = exchange {
            Ok(Self(true, PhantomData))
        } else {
            Err(ChipError::from_code(1))
        }
    }

    /// Takes the context of the process. `taken` is the flag that records
    /// whether it was handed out; the first call that finds it clear sets it
    /// and gets the context, every other call fails with code 1.
    pub fn take(taken: &AtomicBool) -> (r: Result<Self, ChipError>)
        ensures
            match r {
                Ok(context) => context.is_owner(),
                Err(e) => e == ChipError(1),
            },
    {
        Self::claimed(taken.compare_exchange(false, true, Ordering::SeqCst, Ordering::SeqCst))
    }

    /// Reports that something of the endpoint `id` changed: hands the id to
    /// the runtime's report function.
    pub fn endpoint_updated<F>(&self, id: chip_EndpointId, report: F) where
        F: FnOnce(chip_EndpointId),

        requires
            report.requires((id,)),
        ensures
            report.ensures((id,), ()),
    {
        report(id)
    }

    /// Reports that one attribute changed: hands its path to the runtime's
    /// report function.
    pub fn attribute_updated<F>(
        &self,
        endpoint_id: chip_EndpointId,
        cluster_id: chip_ClusterId,
        attribute_id: chip_AttributeId,
        report: F,
    ) where F: FnOnce(chip_EndpointId, chip_ClusterId, chip_AttributeId)
        requires
            report.requires((endpoint_id, cluster_id, attribute_id)),
        ensures
            report.ensures((endpoint_id, cluster_id, attribute_id), ()),
    {
        report(endpoint_id, cluster_id, attribute_id)
    }

    /// A passing context, for code that runs inside [`lock`].
    pub(crate) fn internal_new() -> (r: Self)
        ensures
            !r.is_owner(),
    {
        Self(false, PhantomData)
    }
}

/// Action invocation and attribute access in the host's own terms: results
/// in place of status codes, and the context of the call.
///
/// Whoever implements this trait has the registry's [`EmberCallback`] with
/// it.
///
/// [`EmberCallback`]: crate::callbacks::EmberCallback
pub trait EmberCallback {
    /// `handled` is an answer of this implementation to the instant action.
    open spec fn invoke_answer(
        &self,
        command_obj: CommandHandler,
        command_path: ConcreteCommandPath,
        command_data: InstantAction,
        handled: bool,
    ) -> bool {
        true
    }

    /// Carries out an instant action; says whether the command was dealt
    /// with.
    fn invoke(
        &self,
        ctx: &ChipContext,
        command_obj: CommandHandler,
        command_path: &ConcreteCommandPath,
        command_data: &InstantAction,
    ) -> (handled: bool)
        ensures
            self.invoke_answer(command_obj, *command_path, *command_data, handled),
    ;

    /// `result`, with the buffer changed from `before` to `after`, is an
    /// answer of this implementation to the read.
    open spec fn read_answer(
        &self,
        endpoint_id: chip_EndpointId,
        cluster_id: chip_ClusterId,
        attribute: Attribute,
        before: Seq<u8>,
        after: Seq<u8>,
        result: Result<(), EmberAfError>,
    ) -> bool {
        true
    }

    /// Reads an attribute's value into `buffer`.
    fn read(
        &self,
        ctx: &ChipContext,
        endpoint_id: chip_EndpointId,
        cluster_id: chip_ClusterId,
        attribute: &Attribute,
        buffer: &mut [u8],
    ) -> (result: Result<(), EmberAfError>)
        ensures
            self.read_answer(
                endpoint_id,
                cluster_id,
                *attribute,
                old(buffer)@,
                final(buffer)@,
                result,
            ),
    ;

    /// `result` is an answer of this implementation to the write.
    open spec fn write_answer(
        &self,
        endpoint_id: chip_EndpointId,
        cluster_id: chip_ClusterId,
        attribute: Attribute,
        buffer: Seq<u8>,
        result: Result<(), EmberAfError>,
    ) -> bool {
        true
    }

    /// Takes an attribute's new value from `buffer`.
    fn write(
        &self,
        ctx: &ChipContext,
        endpoint_id: chip_EndpointId,
        cluster_id: chip_ClusterId,
        attribute: &Attribute,
        buffer: &[u8],
    ) -> (result: Result<(), EmberAfError>)
        ensures
            self.write_answer(endpoint_id, cluster_id, *attribute, buffer@, result),
    ;
}

impl<E> crate::callbacks::EmberCallback for E where E: EmberCallback {
    /// The answer of [`EmberCallback::invoke`], as it is.
    open spec fn instant_action_answer(
        &self,
        command_obj: CommandHandler,
        command_path: ConcreteCommandPath,
        command_data: InstantAction,
        handled: bool,
    ) -> bool {
        self.invoke_answer(command_obj, command_path, command_data, handled)
    }

    fn cluster_instant_action(
        &self,
        command_obj: CommandHandler,
        command_path: &ConcreteCommandPath,
        command_data: &InstantAction,
    ) -> (handled: bool) {
        EmberCallback::invoke(
            self,
            &ChipContext::internal_new(),
            command_obj,
            command_path,
            command_data,
        )
    }

    /// The status of a result of [`EmberCallback::read`].
    open spec fn read_answer(
        &self,
        endpoint_id: chip_EndpointId,
        cluster_id: chip_ClusterId,
        attribute: Attribute,
        before: Seq<u8>,
        after: Seq<u8>,
        status: EmberAfStatus,
    ) -> bool {
        exists|result: Result<(), EmberAfError>|
            {
                &&& #[trigger] EmberCallback::read_answer(
                    self,
                    endpoint_id,
                    cluster_id,
                    attribute,
                    before,
                    after,
                    result,
                )
                &&& status == EmberAfError::raw(result)
            }
    }

    fn external_attribute_read(
        &self,
        endpoint_id: chip_EndpointId,
        cluster_id: chip_ClusterId,
        attribute: &Attribute,
        buffer: &mut [u8],
    ) -> (status: EmberAfStatus) {
        EmberAfError::to_raw(
            EmberCallback::read(
                self,
                &ChipContext::internal_new(),
                endpoint_id,
                cluster_id,
                attribute,
                buffer,
            ),
        )
    }

    /// The status of a result of [`EmberCallback::write`].
    open spec fn write_answer(
        &self,
        endpoint_id: chip_EndpointId,
        cluster_id: chip_ClusterId,
        attribute: Attribute,
        buffer: Seq<u8>,
        status: EmberAfStatus,
    ) -> bool {
        exists|result: Result<(), EmberAfError>|
            {
                &&& #[trigger] EmberCallback::write_answer(
                    self,
                    endpoint_id,
                    cluster_id,
                    attribute,
                    buffer,
                    result,
                )
                &&& status == EmberAfError::raw(result)
            }
    }

    fn external_attribute_write(
        &self,
        endpoint_id: chip_EndpointId,
        cluster_id: chip_ClusterId,
        attribute: &Attribute,
        buffer: &[u8],
    ) -> (status: EmberAfStatus) {
        EmberAfError::to_raw(
            EmberCallback::write(
                self,
                &ChipContext::internal_new(),
                endpoint_id,
                cluster_id,
                attribute,
                buffer,
            ),
        )
    }
}

impl<E> EmberCallback for &E where E: EmberCallback {
    open spec fn invoke_answer(
        &self,
        command_obj: CommandHandler,
        command_path: ConcreteCommandPath,
        command_data: InstantAction,
        handled: bool,
    ) -> bool {
        (**self).invoke_answer(command_obj, command_path, command_data, handled)
    }

    fn invoke(
        &self,
        ctx: &ChipContext,
        command_obj: CommandHandler,
        command_path: &ConcreteCommandPath,
        command_data: &InstantAction,
    ) -> (handled: bool) {
        (*self).invoke(ctx, command_obj, command_path, command_data)
    }

    open spec fn read_answer(
        &self,
        endpoint_id: chip_EndpointId,
        cluster_id: chip_ClusterId,
        attribute: Attribute,
        before: Seq<u8>,
        after: Seq<u8>,
        result: Result<(), EmberAfError>,
    ) -> bool {
        (**self).read_answer(endpoint_id, cluster_id, attribute, before, after, result)
    }

    fn read(
        &self,
        ctx: &ChipContext,
        endpoint_id: chip_EndpointId,
        cluster_id: chip_ClusterId,
        attribute: &Attribute,
        buffer: &mut [u8],
    ) -> (result: Result<(), EmberAfError>) {
        (*self).read(ctx, endpoint_id, cluster_id, attribute, buffer)
    }

    open spec fn write_answer(
        &self,
        endpoint_id: chip_EndpointId,
        cluster_id: chip_ClusterId,
        attribute: Attribute,
        buffer: Seq<u8>,
        result: Result<(), EmberAfError>,
    ) -> bool {
        (**self).write_answer(endpoint_id, cluster_id, attribute, buffer, result)
    }

    fn write(
        &self,
        ctx: &ChipContext,
        endpoint_id: chip_EndpointId,
        cluster_id: chip_ClusterId,
        attribute: &Attribute,
        buffer: &[u8],
    ) -> (result: Result<(), EmberAfError>) {
        (*self).write(ctx, endpoint_id, cluster_id, attribute, buffer)
    }
}

impl<E> EmberCallback for &mut E where E: EmberCallback {
    open spec fn invoke_answer(
        &self,
        command_obj: CommandHandler,
        command_path: ConcreteCommandPath,
        command_data: InstantAction,
        handled: bool,
    ) -> bool {
        (**self).invoke_answer(command_obj, command_path, command_data, handled)
    }

    fn invoke(
        &self,
        ctx: &ChipContext,
        command_obj: CommandHandler,
        command_path: &ConcreteCommandPath,
        command_data: &InstantAction,
    ) -> (handled: bool) {
        (**self).invoke(ctx, command_obj, command_path, command_data)
    }

    open spec fn read_answer(
        &self,
        endpoint_id: chip_EndpointId,
        cluster_id: chip_ClusterId,
        attribute: Attribute,
        before: Seq<u8>,
        after: Seq<u8>,
        result: Result<(), EmberAfError>,
    ) -> bool {
        (**self).read_answer(endpoint_id, cluster_id, attribute, before, after, result)
    }

    fn read(
        &self,
        ctx: &ChipContext,
        endpoint_id: chip_EndpointId,
        cluster_id: chip_ClusterId,
        attribute: &Attribute,
        buffer: &mut [u8],
    ) -> (result: Result<(), EmberAfError>) {
        (**self).read(ctx, endpoint_id, cluster_id, attribute, buffer)
    }

    open spec fn write_answer(
        &self,
        endpoint_id: chip_EndpointId,
        cluster_id: chip_ClusterId,
        attribute: Attribute,
        buffer: Seq<u8>,
        result: Result<(), EmberAfError>,
    ) -> bool {
        (**self).write_answer(endpoint_id, cluster_id, attribute, buffer, result)
    }

    fn write(
        &self,
        ctx: &ChipContext,
        endpoint_id: chip_EndpointId,
        cluster_id: chip_ClusterId,
        attribute: &Attribute,
        buffer: &[u8],
    ) -> (result: Result<(), EmberAfError>) {
        (**self).write(ctx, endpoint_id, cluster_id, attribute, buffer)
    }
}

/// The values that a device is paired with, held as plain data.
pub struct ComissionableData<'a> {
    pub setup_discriminator: u16,
    pub setup_passcode: u32,
    pub spake2p_iteration_count: u32,
    pub spake2p_salt: &'a [u8],
    pub spake2p_verifier: &'a [u8],
}

impl<'a> crate::callbacks::ComissionableDataProviderCallback for ComissionableData<'a> {
    /// The discriminator is written and the status is success.
    open spec fn setup_discriminator_answer(
        &self,
        before: u16,
        after: u16,
        status: CHIP_ERROR,
    ) -> bool {
        after == self.setup_discriminator && status == 0
    }

    fn get_setup_discriminator(&self, setup_discriminator: &mut u16) -> (status: CHIP_ERROR) {
        *setup_discriminator = self.setup_discriminator;
        ChipError::from_code(0).error()
    }

    /// The passcode is written and the status is success.
    open spec fn setup_passcode_answer(&self, before: u32, after: u32, status: CHIP_ERROR) -> bool {
        after == self.setup_passcode && status == 0
    }

    fn get_setup_passcode(&self, setup_passcode: &mut u32) -> (status: CHIP_ERROR) {
        *setup_passcode = self.setup_passcode;
        ChipError::from_code(0).error()
    }

    /// The iteration count is written and the status is success.
    open spec fn spake2p_iteration_count_answer(
        &self,
        before: u32,
        after: u32,
        status: CHIP_ERROR,
    ) -> bool {
        after == self.spake2p_iteration_count && status == 0
    }

    fn get_spake2p_iteration_count(&self, iteration_count: &mut u32) -> (status: CHIP_ERROR) {
        *iteration_count = self.spake2p_iteration_count;
        ChipError::from_code(0).error()
    }

    /// The span holds at least as many bytes as the salt.
    open spec fn salt_fits(&self, size: nat) -> bool {
        self.spake2p_salt@.len() <= size
    }

    /// The span holds the salt and nothing else, and the status is success.
    open spec fn spake2p_salt_answer(
        &self,
        before: Seq<u8>,
        after: Seq<u8>,
        status: CHIP_ERROR,
    ) -> bool {
        after == self.spake2p_salt@ && status == 0
    }

    fn get_spake2p_salt(&self, salt_buf: &mut Vec<u8>) -> (status: CHIP_ERROR) {
        crate::callbacks::fill_span(salt_buf, self.spake2p_salt);
        ChipError::from_code(0).error()
    }

    /// The span holds at least as many bytes as the verifier.
    open spec fn verifier_fits(&self, size: nat) -> bool {
        self.spake2p_verifier@.len() <= size
    }

    /// The span holds the verifier and nothing else, the length is the
    /// verifier's, and the status is success.
    open spec fn spake2p_verifier_answer(
        &self,
        before: Seq<u8>,
        after: Seq<u8>,
        len_before: usize,
        len_after: usize,
        status: CHIP_ERROR,
    ) -> bool {
        after == self.spake2p_verifier@ && len_after == self.spake2p_verifier@.len() && status
            == 0
    }

    fn get_spake2p_verifier(
        &self,
        verifier_buf: &mut Vec<u8>,
        out_verifier_len: &mut usize,
    ) -> (status: CHIP_ERROR) {
        crate::callbacks::fill_span(verifier_buf, self.spake2p_verifier);
        *out_verifier_len = self.spake2p_verifier.len();
        ChipError::from_code(0).error()
    }
}

/// The commissioning data for tests.
pub fn test_comissionable_data() -> (r: ComissionableData<'static>)
    ensures
        r.setup_discriminator == 3840,
        r.setup_passcode == 20202021,
        r.spake2p_iteration_count == 1000,
        r.spake2p_salt@ == crate::dynamic::test_spake2p_salt(),
        r.spake2p_verifier@ == crate::dynamic::test_spake2p_verifier(),
{
    ComissionableData {
        setup_discriminator: crate::dynamic::TEST_SETUP_DISCRIMINATOR,
        setup_passcode: crate::dynamic::TEST_SETUP_PASSCODE,
        spake2p_iteration_count: crate::dynamic::TEST_SPAKE2P_ITERATION_COUNT,
        spake2p_salt: crate::dynamic::test_salt(),
        spake2p_verifier: crate::dynamic::test_verifier(),
    }
}

/// Runs `f` with a passing context between the lock and the unlock of
/// `hooks`, or on its own where there is no such pair, and returns what `f`
/// returns.
///
/// The order is part of what is asked of the caller's functions: `f` need
/// only be callable once the lock was taken, and the unlock once `f` has
/// returned. So the lock comes first, then `f`, then the unlock.
pub fn lock<L, U, F, R>(hooks: &Option<(L, U)>, f: F) -> (r: R) where
    L: Fn(),
    U: Fn(),
    F: FnOnce(&ChipContext) -> R,

    requires
        hooks is None ==> forall|ctx: &ChipContext|
            !ctx.is_owner() ==> #[trigger] f.requires((ctx,)),
        hooks matches Some(pair) ==> pair.0.requires(()),
        hooks matches Some(pair) ==> (pair.0.ensures((), ()) ==> forall|ctx: &ChipContext|
            !ctx.is_owner() ==> #[trigger] f.requires((ctx,))),
        hooks matches Some(pair) ==> (forall|ctx: &ChipContext, res: R| #[trigger]
            f.ensures((ctx,), res) ==> pair.1.requires(())),
    ensures
        exists|ctx: &ChipContext| !ctx.is_owner() && #[trigger] f.ensures((ctx,), r),
        hooks matches Some(pair) ==> pair.0.ensures((), ()) && pair.1.ensures((), ()),
{
    let ctx = ChipContext::internal_new();
    match hooks {
        Some(pair) => {
            (pair.0)();
            let res = f(&ctx);
            (pair.1)();
            res
        },
        None => f(&ctx),
    }
}

/// Device type of the root node.
pub const DEVICE_TYPE_ROOT_NODE: u16 = 0x0016;

/// Device type of the node that aggregates the bridged endpoints.
pub const DEVICE_TYPE_AGGREGATOR: u16 = 0x000e;

/// Device type of an endpoint that stands for a bridged device.
pub const DEVICE_TYPE_BRIDGED_NODE: u16 = 0x0013;

/// One of the endpoints that exist for the whole life of the process.
#[derive(Copy, Clone, Debug, PartialEq, Eq)]
pub struct StaticEndpoint<const ID: u16>;

/// The root node.
pub const ROOT_NODE: StaticEndpoint<0> = StaticEndpoint;

/// The node that dynamic endpoints hang under.
pub const BRIDGE_NODE: StaticEndpoint<1> = StaticEndpoint;

/// The last fixed endpoint: it lists every cluster that the bridge can
/// offer, so that the runtime knows them, and is never enabled.
pub const TEMPLATE_NODE: StaticEndpoint<2> = StaticEndpoint;

/// The device types of the root node.
pub open spec fn root_device_types() -> Seq<DeviceType> {
    seq![DeviceType::spec_of(DEVICE_TYPE_ROOT_NODE)]
}

/// The device types of the bridge node.
pub open spec fn bridge_device_types() -> Seq<DeviceType> {
    seq![DeviceType::spec_of(DEVICE_TYPE_AGGREGATOR)]
}

/// `r` is what [`StaticEndpoint::initialize`] returns with these two
/// functions of the runtime: the root node was given its device types; where
/// that was refused, `r` is the refusal; else the bridge node was given its
/// device types; where that was refused, `r` is the refusal; else the
/// template node and the bridge node were disabled and `r` is `Ok`.
pub open spec fn fixed_endpoints_initialized<S, E>(
    set_device_type_list: S,
    endpoint_enable_disable: E,
    r: Result<(), ChipError>,
) -> bool where
    S: Fn(chip_EndpointId, Vec<DeviceType>) -> CHIP_ERROR,
    E: Fn(chip_EndpointId, bool),
 {
    exists|root_types: Vec<DeviceType>, root: CHIP_ERROR|
        {
            &&& root_types@ == root_device_types()
            &&& #[trigger] set_device_type_list.ensures((0u16, root_types), root)
            &&& root != 0 ==> r == Err::<(), ChipError>(ChipError(root))
            &&& root == 0 ==> exists|bridge_types: Vec<DeviceType>, bridge: CHIP_ERROR|
                {
                    &&& bridge_types@ == bridge_device_types()
                    &&& #[trigger] set_device_type_list.ensures((1u16, bridge_types), bridge)
                    &&& bridge != 0 ==> r == Err::<(), ChipError>(ChipError(bridge))
                    &&& bridge == 0 ==> {
                        &&& r == Ok::<(), ChipError>(())
                        &&& endpoint_enable_disable.ensures((2u16, false), ())
                        &&& endpoint_enable_disable.ensures((1u16, false), ())
                    }
                }
        }
}

/// The two functions of the runtime can be called as
/// [`StaticEndpoint::initialize`] calls them: the root node's list can be
/// set; once it was accepted, the bridge node's list can be set; once both
/// were accepted, the template node and the bridge node can be disabled.
/// Nothing is asked for a call that comes after a refusal.
pub open spec fn fixed_endpoints_callable<S, E>(
    set_device_type_list: S,
    endpoint_enable_disable: E,
) -> bool where
    S: Fn(chip_EndpointId, Vec<DeviceType>) -> CHIP_ERROR,
    E: Fn(chip_EndpointId, bool),
 {
    &&& forall|root_types: Vec<DeviceType>|
        root_types@ == root_device_types() ==> #[trigger] set_device_type_list.requires(
            (0u16, root_types),
        )
    &&& forall|root_types: Vec<DeviceType>, bridge_types: Vec<DeviceType>|
        root_types@ == root_device_types() && bridge_types@ == bridge_device_types()
            && #[trigger] set_device_type_list.ensures((0u16, root_types), 0)
            ==> #[trigger] set_device_type_list.requires((1u16, bridge_types))
    &&& forall|root_types: Vec<DeviceType>, bridge_types: Vec<DeviceType>|
        root_types@ == root_device_types() && bridge_types@ == bridge_device_types()
            && #[trigger] set_device_type_list.ensures((0u16, root_types), 0)
            && #[trigger] set_device_type_list.ensures((1u16, bridge_types), 0)
            ==> endpoint_enable_disable.requires((2u16, false))
            && endpoint_enable_disable.requires((1u16, false))
}

impl<const ID: u16> StaticEndpoint<ID> {
    /// The endpoint's id.
    pub fn id(&self) -> (r: chip_EndpointId)
        ensures
            r == ID,
    {
        ID
    }

    /// Sets up the fixed endpoints: gives the root node and the bridge node
    /// their device types, then disables the template node and the bridge
    /// node. Stops at the first refusal and returns it: after a refused list
    /// no further list is set and no endpoint is disabled.
    pub fn initialize<S, E>(set_device_type_list: &S, endpoint_enable_disable: &E) -> (r: Result<
        (),
        ChipError,
    >) where S: Fn(chip_EndpointId, Vec<DeviceType>) -> CHIP_ERROR, E: Fn(chip_EndpointId, bool)
        requires
            fixed_endpoints_callable(*set_device_type_list, *endpoint_enable_disable),
        ensures
            fixed_endpoints_initialized(*set_device_type_list, *endpoint_enable_disable, r),
    {
        let mut root_types: Vec<DeviceType> = Vec::new();
        root_types.push(DeviceType::of(DEVICE_TYPE_ROOT_NODE));
        assert(root_types@ =~= root_device_types());
        let ghost given_root = root_types;
        let root = ROOT_NODE.initialize_ep(root_types, set_device_type_list);
        match root {
            Err(e) => {
                assert(set_device_type_list.ensures((0u16, given_root), e.0));
                return Err(e);
            },
            Ok(()) => {
                assert(set_device_type_list.ensures((0u16, given_root), 0));
            },
        }
        let mut bridge_types: Vec<DeviceType> = Vec::new();
        bridge_types.push(DeviceType::of(DEVICE_TYPE_AGGREGATOR));
        assert(bridge_types@ =~= bridge_device_types());
        let ghost given_bridge = bridge_types;
        let bridge = BRIDGE_NODE.initialize_ep(bridge_types, set_device_type_list);
        match bridge {
            Err(e) => {
                assert(set_device_type_list.ensures((1u16, given_bridge), e.0));
                return Err(e);
            },
            Ok(()) => {
                assert(set_device_type_list.ensures((1u16, given_bridge), 0));
            },
        }
        TEMPLATE_NODE.enable(false, endpoint_enable_disable);
        BRIDGE_NODE.enable(false, endpoint_enable_disable);
        Ok(())
    }

    /// Gives this endpoint its device types: `Ok` where the runtime accepts
    /// the list, else the runtime's refusal.
    pub fn initialize_ep<S>(&self, device_types: Vec<DeviceType>, set_device_type_list: &S) -> (r:
        Result<(), ChipError>) where S: Fn(chip_EndpointId, Vec<DeviceType>) -> CHIP_ERROR
        requires
            set_device_type_list.requires((ID, device_types)),
        ensures
            exists|status: CHIP_ERROR|
                {
                    &&& #[trigger] set_device_type_list.ensures((ID, device_types), status)
                    &&& r == ChipError::checked(status, ())
                },
    {
        let status = set_device_type_list(self.id(), device_types);
        ChipError::convert(status)
    }

    /// Enables or disables this endpoint.
    pub fn enable<E>(&self, enable: bool, endpoint_enable_disable: &E) where
        E: Fn(chip_EndpointId, bool),

        requires
            endpoint_enable_disable.requires((ID, enable)),
        ensures
            endpoint_enable_disable.ensures((ID, enable), ()),
    {
        endpoint_enable_disable(self.id(), enable)
    }
}

/// What the host sets before the stack starts. A value that is `None` is
/// left as the runtime has it.
pub struct ChipConfiguration<P> {
    pub vendor_id: Option<u16>,
    pub product_id: Option<u16>,
    pub comissionable_data: Option<P>,
}

impl<P> ChipConfiguration<P> {
    /// The configuration that sets nothing.
    pub fn new() -> (r: Self)
        ensures
            r.vendor_id is None,
            r.product_id is None,
            r.comissionable_data is None,
    {
        Self { vendor_id: None, product_id: None, comissionable_data: None }
    }
}

impl<P> Default for ChipConfiguration<P> {
    fn default() -> (r: Self)
        ensures
            r.vendor_id is None,
            r.product_id is None,
            r.comissionable_data is None,
    {
        Self::new()
    }
}

/// One step of bringing the stack up, carried out by the runtime.
#[derive(Copy, Clone, Debug, PartialEq, Eq, Structural)]
pub enum StartupCall {
    /// Set up the runtime's memory.
    MemoryInit,
    /// Set up the stack.
    InitChipStack,
    /// Route the runtime's callbacks to the registry's entry points.
    GlueInitialize,
    /// Install the provider of attestation credentials.
    SetDeviceAttestationCredentialsProvider,
    /// Store the vendor id.
    StoreVendorId(u16),
    /// Store the product id.
    StoreProductId(u16),
    /// Set up what the server needs before it starts.
    InitializeStaticResourcesBeforeServerInit,
    /// Start the server.
    ServerInit,
    /// Print the codes with which the device is paired.
    PrintOnboardingCodes,
}

/// The steps before the callbacks are installed: memory, stack, glue and
/// attestation, then the vendor id and the product id where the
/// configuration has them.
pub open spec fn platform_calls(vendor_id: Option<u16>, product_id: Option<u16>) -> Seq<
    StartupCall,
> {
    seq![
        StartupCall::MemoryInit,
        StartupCall::InitChipStack,
        StartupCall::GlueInitialize,
        StartupCall::SetDeviceAttestationCredentialsProvider,
    ] + (match vendor_id {
        Some(id) => seq![StartupCall::StoreVendorId(id)],
        None => seq![],
    }) + (match product_id {
        Some(id) => seq![StartupCall::StoreProductId(id)],
        None => seq![],
    })
}

/// The steps that start the server, after the callbacks are installed.
pub open spec fn server_calls() -> Seq<StartupCall> {
    seq![StartupCall::InitializeStaticResourcesBeforeServerInit, StartupCall::ServerInit]
}

/// The first `upto` of `calls` were carried out and each reported success.
pub open spec fn performed<R>(runtime: R, calls: Seq<StartupCall>, upto: int) -> bool where
    R: Fn(StartupCall) -> CHIP_ERROR,
 {
    forall|i: int| 0 <= i < upto ==> #[trigger] runtime.ensures((calls[i],), 0)
}

/// `r` is what carrying out `calls` in order gives: `Ok` where every call
/// reported success; else the status of the first call that did not, with
/// no call made after it.
pub open spec fn performed_all<R>(
    runtime: R,
    calls: Seq<StartupCall>,
    r: Result<(), ChipError>,
) -> bool where R: Fn(StartupCall) -> CHIP_ERROR {
    match r {
        Ok(()) => performed(runtime, calls, calls.len() as int),
        Err(e) => e.0 != 0 && exists|k: int|
            {
                &&& 0 <= k < calls.len()
                &&& performed(runtime, calls, k)
                &&& #[trigger] runtime.ensures((calls[k],), e.0)
            },
    }
}

/// `calls` can be carried out in order: each of them can be made once
/// every call before it was made and reported success. Nothing is asked for
/// a call that comes after a failure.
pub open spec fn callable_in_order<R>(runtime: R, calls: Seq<StartupCall>) -> bool where
    R: Fn(StartupCall) -> CHIP_ERROR,
 {
    forall|i: int|
        0 <= i < calls.len() && performed(runtime, calls, i) ==> #[trigger] runtime.requires(
            (calls[i],),
        )
}

/// Carries out `calls` in order and stops at the first that does not
/// report success: no call is made after it.
pub fn perform<R>(runtime: &R, calls: &Vec<StartupCall>) -> (r: Result<(), ChipError>) where
    R: Fn(StartupCall) -> CHIP_ERROR,

    requires
        callable_in_order(*runtime, calls@),
    ensures
        performed_all(*runtime, calls@, r),
{
    let n = calls.len();
    let mut i: usize = 0;
    while i < n
        invariant
            n == calls@.len(),
            i <= n,
            callable_in_order(*runtime, calls@),
            performed(*runtime, calls@, i as int),
        decreases n - i,
    {
        let status = runtime(calls[i]);
        if let Err(e) = ChipError::convert(status) {
            assert(runtime.ensures((calls@[i as int],), e.0));
            return Err(e);
        }
        i += 1;
    }
    Ok(())
}

/// The functions of the runtime can be called as [`Chip::new`] calls them:
/// the steps of [`platform_calls`] in order; once all of them reported
/// success, the steps of [`server_calls`] in order; once all of those did,
/// the set-up of the fixed endpoints; once that succeeded, the printing of
/// the onboarding codes. Nothing is asked for a call that comes after a
/// failure.
pub open spec fn startup_callable<R, S, D>(
    runtime: R,
    set_device_type_list: S,
    endpoint_enable_disable: D,
    vendor_id: Option<u16>,
    product_id: Option<u16>,
) -> bool where
    R: Fn(StartupCall) -> CHIP_ERROR,
    S: Fn(chip_EndpointId, Vec<DeviceType>) -> CHIP_ERROR,
    D: Fn(chip_EndpointId, bool),
 {
    let platform = platform_calls(vendor_id, product_id);
    let platform_done = performed(runtime, platform, platform.len() as int);
    let server_done = performed(runtime, server_calls(), server_calls().len() as int);
    &&& callable_in_order(runtime, platform)
    &&& platform_done ==> callable_in_order(runtime, server_calls())
    &&& platform_done && server_done ==> fixed_endpoints_callable(
        set_device_type_list,
        endpoint_enable_disable,
    )
    &&& platform_done && server_done && fixed_endpoints_initialized(
        set_device_type_list,
        endpoint_enable_disable,
        Ok(()),
    ) ==> runtime.requires((StartupCall::PrintOnboardingCodes,))
}

/// The registry after [`Chip::new`] installed its callbacks: the attribute
/// and action callback is `callback`; the commissioning data provider is
/// that of the configuration where it has one, else the one that was there;
/// the other slots are as before.
pub open spec fn installed<L, U, E, I, P>(
    before: Callbacks<L, U, E, I, P>,
    after: Callbacks<L, U, E, I, P>,
    callback: E,
    comissionable_data: Option<P>,
) -> bool {
    &&& after.lock == before.lock
    &&& after.ember == Some(callback)
    &&& after.actions_plugin_server_init == before.actions_plugin_server_init
    &&& after.comissionable_data_provider == match comissionable_data {
        Some(provider) => Some(provider),
        None => before.comissionable_data_provider,
    }
}

/// The stack, brought up and ready to run.
pub struct Chip<'a>(&'a ChipContext);

impl<'a> Chip<'a> {
    /// The context that the stack was brought up with.
    pub closed spec fn spec_context(&self) -> &'a ChipContext {
        self.0
    }

    /// Brings the stack up.
    ///
    /// The steps of [`platform_calls`] come first, in their order. Then the
    /// callbacks are installed in the registry. Then come the steps of
    /// [`server_calls`], the set-up of the fixed endpoints, and the printing
    /// of the onboarding codes. The first step that does not report success
    /// ends the start with its status; nothing is undone.
    pub fn new<L, U, E, I, P, R, S, D>(
        context: &'a ChipContext,
        callbacks: &mut Callbacks<L, U, E, I, P>,
        callback: E,
        conf: ChipConfiguration<P>,
        runtime: &R,
        set_device_type_list: &S,
        endpoint_enable_disable: &D,
    ) -> (r: Result<Self, ChipError>) where
        R: Fn(StartupCall) -> CHIP_ERROR,
        S: Fn(chip_EndpointId, Vec<DeviceType>) -> CHIP_ERROR,
        D: Fn(chip_EndpointId, bool),

        requires
            startup_callable(
                *runtime,
                *set_device_type_list,
                *endpoint_enable_disable,
                conf.vendor_id,
                conf.product_id,
            ),
        ensures
            r matches Ok(chip) ==> chip.spec_context() == context,
            exists|platform: Result<(), ChipError>|
                {
                    &&& #[trigger] performed_all(
                        *runtime,
                        platform_calls(conf.vendor_id, conf.product_id),
                        platform,
                    )
                    &&& platform matches Err(e) ==> r == Err::<Self, ChipError>(e)
                        && *final(callbacks) == *old(callbacks)
                    &&& platform is Ok ==> installed(
                        *old(callbacks),
                        *final(callbacks),
                        callback,
                        conf.comissionable_data,
                    ) && exists|server: Result<(), ChipError>|
                        {
                            &&& #[trigger] performed_all(*runtime, server_calls(), server)
                            &&& server matches Err(e) ==> r == Err::<Self, ChipError>(e)
                            &&& server is Ok ==> exists|fixed: Result<(), ChipError>|
                                {
                                    &&& #[trigger] fixed_endpoints_initialized(
                                        *set_device_type_list,
                                        *endpoint_enable_disable,
                                        fixed,
                                    )
                                    &&& fixed matches Err(e) ==> r == Err::<Self, ChipError>(e)
                                    &&& fixed is Ok ==> exists|printed: CHIP_ERROR|
                                        {
                                            &&& #[trigger] runtime.ensures(
                                                (StartupCall::PrintOnboardingCodes,),
                                                printed,
                                            )
                                            &&& printed != 0 ==> r == Err::<Self, ChipError>(
                                                ChipError(printed),
                                            )
                                            &&& printed == 0 ==> r is Ok
                                        }
                                }
                        }
                },
    {
        let mut platform: Vec<StartupCall> = Vec::new();
        platform.push(StartupCall::MemoryInit);
        platform.push(StartupCall::InitChipStack);
        platform.push(StartupCall::GlueInitialize);
        platform.push(StartupCall::SetDeviceAttestationCredentialsProvider);
        if let Some(vendor_id) = conf.vendor_id {
            platform.push(StartupCall::StoreVendorId(vendor_id));
        }
        if let Some(product_id) = conf.product_id {
            platform.push(StartupCall::StoreProductId(product_id));
        }
        assert(platform@ =~= platform_calls(conf.vendor_id, conf.product_id));
        let started = perform(runtime, &platform);
        if let Err(e) = started {
            return Err(e);
        }
        callbacks.ember = Some(callback);
        if let Some(provider) = conf.comissionable_data {
            callbacks.comissionable_data_provider = Some(provider);
        }
        let mut server: Vec<StartupCall> = Vec::new();
        server.push(StartupCall::InitializeStaticResourcesBeforeServerInit);
        server.push(StartupCall::ServerInit);
        assert(server@ =~= server_calls());
        let served = perform(runtime, &server);
        if let Err(e) = served {
            return Err(e);
        }
        let fixed = StaticEndpoint::<0>::initialize(set_device_type_list, endpoint_enable_disable);
        if let Err(e) = fixed {
            return Err(e);
        }
        let printed = runtime(StartupCall::PrintOnboardingCodes);
        if let Err(e) = ChipError::convert(printed) {
            return Err(e);
        }
        Ok(Chip(context))
    }

    /// The context that the stack was brought up with.
    #[verifier::when_used_as_spec(spec_context)]
    pub fn context(&self) -> (r: &'a ChipContext)
        ensures
            r == self.spec_context(),
    {
        self.0
    }

    /// Runs the stack: calls `run_event_loop` once and returns when it
    /// does.
    pub fn run<F>(&mut self, run_event_loop: F) where F: FnOnce()
        requires
            run_event_loop.requires(()),
        ensures
            run_event_loop.ensures((), ()),
            *final(self) == *old(self),
    {
        run_event_loop()
    }

    /// Ends the stack's use of the registry: empties every slot.
    pub fn shutdown<L, U, E, I, P>(self, callbacks: &mut Callbacks<L, U, E, I, P>)
        ensures
            final(callbacks).lock is None,
            final(callbacks).ember is None,
            final(callbacks).actions_plugin_server_init is None,
            final(callbacks).comissionable_data_provider is None,
    {
        callbacks.lock = None;
        callbacks.ember = None;
        callbacks.actions_plugin_server_init = None;
        callbacks.comissionable_data_provider = None;
    }
}

/// The live binding of an endpoint id to a dynamic slot of the table. It is
/// made by a registration that the runtime accepted, and ends with
/// [`EndpointRegistration::release`].
#[derive(Debug)]
pub struct EndpointRegistration(chip_EndpointId);

impl EndpointRegistration {
    /// The id of the registered endpoint.
    pub closed spec fn endpoint(&self) -> chip_EndpointId {
        self.0
    }

    /// `r` is what a registration of `id` returns where the table's part of
    /// it ended in `outcome`: a registration of `id` for a slot, the same
    /// error for an error.
    pub open spec fn reports(
        r: Result<Self, EmberAfError>,
        id: chip_EndpointId,
        outcome: Result<u16, EmberAfError>,
    ) -> bool {
        match outcome {
            Ok(_) => r is Ok && r->Ok_0.endpoint() == id,
            Err(e) => r is Err && r->Err_0 == e,
        }
    }

    /// Registers the endpoint `id`, given the status with which the runtime
    /// answers the request to set it up; `status` is not read where no
    /// request is owed.
    ///
    /// An id that any index of the table holds is refused as a duplicate.
    /// Otherwise, with no free slot, the table is exhausted. Otherwise the
    /// lowest free slot is asked for: on success `id` stands in it, on any
    /// other status that status is the error and the table is unchanged.
    pub fn confirm(table: &mut EndpointTable, id: chip_EndpointId, status: EmberAfStatus) -> (r:
        Result<Self, EmberAfError>)
        requires
            old(table).wf(),
        ensures
            final(table).wf(),
            Self::reports(r, id, registered(old(table)@, id, status).0),
            final(table)@ == registered(old(table)@, id, status).1,
    {
        match table.settle(id, status) {
            Ok(_) => Ok(EndpointRegistration(id)),
            Err(e) => Err(e),
        }
    }

    /// Registers the endpoint `id` in the lowest free slot of the table.
    ///
    /// The table is scanned first: an id that it holds already is refused as
    /// a duplicate, and a table without a free slot is exhausted; in both
    /// cases the runtime is not asked. Otherwise `set_dynamic_endpoint` is
    /// called once, with the slot counted from the first dynamic index, the
    /// id, the endpoint type, the storage for the data versions, the device
    /// types and the parent's id. What it answers decides as in
    /// [`EndpointRegistration::confirm`].
    pub fn new<const PARENT_ID: u16, F>(
        table: &mut EndpointTable,
        id: chip_EndpointId,
        device_types: &[DeviceType],
        endpoint_type: &EndpointType,
        data_versions: &[chip_DataVersion],
        parent: StaticEndpoint<PARENT_ID>,
        set_dynamic_endpoint: F,
    ) -> (r: Result<Self, EmberAfError>) where
        F: FnOnce(
            u16,
            chip_EndpointId,
            &EndpointType,
            &[chip_DataVersion],
            &[DeviceType],
            chip_EndpointId,
        ) -> EmberAfStatus,

        requires
            old(table).wf(),
            request_for(old(table)@, id) matches Ok(slot) ==> set_dynamic_endpoint.requires(
                (slot, id, endpoint_type, data_versions, device_types, PARENT_ID),
            ),
        ensures
            final(table).wf(),
            exists|status: EmberAfStatus|
                {
                    &&& request_for(old(table)@, id) matches Ok(slot)
                        ==> set_dynamic_endpoint.ensures(
                        (slot, id, endpoint_type, data_versions, device_types, PARENT_ID),
                        status,
                    )
                    &&& Self::reports(r, id, #[trigger] registered(old(table)@, id, status).0)
                    &&& final(table)@ == registered(old(table)@, id, status).1
                },
    {
        match table.request(id) {
            Err(e) => {
                assert(registered(table@, id, 0).0 == Err::<u16, EmberAfError>(e));
                Err(e)
            },
            Ok(slot) => {
                let status = set_dynamic_endpoint(
                    slot,
                    id,
                    endpoint_type,
                    data_versions,
                    device_types,
                    parent.id(),
                );
                Self::confirm(table, id, status)
            },
        }
    }

    /// Enables or disables the registered endpoint: looks up its index and
    /// hands the id that the table holds there.
    pub fn enable<E>(
        &self,
        table: &EndpointTable,
        _ctx: &ChipContext,
        enable: bool,
        endpoint_enable_disable: E,
    ) where E: FnOnce(chip_EndpointId, bool)
        requires
            table.wf(),
            table@.contains(self.endpoint()),
            endpoint_enable_disable.requires((self.endpoint(), enable)),
        ensures
            endpoint_enable_disable.ensures((self.endpoint(), enable), ()),
    {
        let found = self.index(table);
        assert(found is Some);
        let index = found.unwrap();
        let endpoint = table.endpoint_from_index(index).unwrap();
        endpoint_enable_disable(endpoint, enable)
    }

    /// The id of the registered endpoint.
    #[verifier::when_used_as_spec(endpoint)]
    pub fn id(&self) -> (r: chip_EndpointId)
        ensures
            r == self.endpoint(),
    {
        self.0
    }

    /// The index at which the table holds this registration's id.
    pub fn index(&self, table: &EndpointTable) -> (r: Option<u16>)
        requires
            table.wf(),
        ensures
            match r {
                Some(i) => is_first_index(table@, self.endpoint(), i as int),
                None => !table@.contains(self.endpoint()),
            },
            crate::table::slot_of(table@, self.endpoint()) == match r {
                Some(i) => Some(i as int),
                None => None,
            },
    {
        Self::find_index(table, self.0)
    }

    /// The lowest index at which the table holds `id`: a scan over all
    /// indices, fixed and dynamic. `None` where no index holds it.
    pub fn find_index(table: &EndpointTable, id: chip_EndpointId) -> (r: Option<u16>)
        requires
            table.wf(),
        ensures
            match r {
                Some(i) => is_first_index(table@, id, i as int),
                None => !table@.contains(id),
            },
            crate::table::slot_of(table@, id) == match r {
                Some(i) => Some(i as int),
                None => None,
            },
    {
        table.find_index(id)
    }

    /// Ends the registration: frees the slot that holds its id, and calls
    /// `clear_dynamic_endpoint` once with that slot, counted from the first
    /// dynamic index. No other index of the table changes.
    pub fn release<C>(self, table: &mut EndpointTable, clear_dynamic_endpoint: C) where
        C: FnOnce(u16),

        requires
            old(table).wf(),
            is_registered(old(table)@, self.endpoint()),
            clear_dynamic_endpoint.requires(
                (dynamic_slot(old(table)@, self.endpoint()),),
            ),
        ensures
            final(table).wf(),
            final(table)@ == released(old(table)@, self.endpoint()),
            clear_dynamic_endpoint.ensures(
                (dynamic_slot(old(table)@, self.endpoint()),),
                (),
            ),
    {
        let freed = table.release(self.0);
        let slot = freed.unwrap();
        clear_dynamic_endpoint(slot)
    }
}

} // verus!
