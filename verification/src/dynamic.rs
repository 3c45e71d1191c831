//! An endpoint with its descriptors in one value, its registration, and the
//! commissioning data in the host's own terms.

use vstd::prelude::*;
use std::rc::Rc;
pub use crate::descriptor::{
    Attribute, Attributes, Cluster, Clusters, Command, Commands, DeviceType, DeviceTypes,
};
use crate::descriptor::EndpointType;
pub use crate::table::ENDPOINT_ID_RANGE_START;
use crate::error::{ChipError, EmberAfError, EmberAfStatus, CHIP_ERROR};
use crate::table::{
    dynamic_slot, is_first_index, is_registered, registered, released, request_for, EndpointTable,
};
use crate::zcl::{chip_DataVersion, chip_EndpointId};

verus! {

/// The values that a device is paired with, as results: a value, or the
/// error that keeps it from being given.
///
/// Whoever implements this trait has the registry's
/// [`ComissionableDataProviderCallback`] with it.
///
/// An implementation must state its salt and its verifier, in
/// `spake2p_salt_answer` and `spake2p_verifier_answer`. The registry's
/// getters write them into a span and ask that the span can hold every
/// answer that the implementation may give. With the relation left at
/// `true` every sequence of bytes is such an answer, no span can hold them
/// all, and verified code can never ask such a provider for its salt or
/// its verifier.
///
/// [`ComissionableDataProviderCallback`]: crate::callbacks::ComissionableDataProviderCallback
pub trait ComissionableDataProviderCallback {
    /// `r` is an answer of this implementation for the discriminator.
    open spec fn setup_discriminator_answer(&self, r: Result<u16, ChipError>) -> bool {
        true
    }

    /// The setup discriminator.
    fn setup_discriminator(&self) -> (r: Result<u16, ChipError>)
        ensures
            self.setup_discriminator_answer(r),
    ;

    /// `r` is an answer of this implementation for the passcode.
    open spec fn setup_passcode_answer(&self, r: Result<u32, ChipError>) -> bool {
        true
    }

    /// The setup passcode.
    fn setup_passcode(&self) -> (r: Result<u32, ChipError>)
        ensures
            self.setup_passcode_answer(r),
    ;

    /// `r` is an answer of this implementation for the iteration count.
    open spec fn spake2p_iteration_count_answer(&self, r: Result<u32, ChipError>) -> bool {
        true
    }

    /// The iteration count of the key derivation.
    fn spake2p_iteration_count(&self) -> (r: Result<u32, ChipError>)
        ensures
            self.spake2p_iteration_count_answer(r),
    ;

    /// `r`, the bytes in place of the slice, is an answer of this
    /// implementation for the salt. To be stated by the implementation:
    /// left at `true`, no span is large enough for it.
    open spec fn spake2p_salt_answer(&self, r: Result<Seq<u8>, ChipError>) -> bool {
        true
    }

    /// The salt of the key derivation.
    fn spake2p_salt(&self) -> (r: Result<&[u8], ChipError>)
        ensures
            self.spake2p_salt_answer(bytes_of(r)),
    ;

    /// `r`, the bytes in place of the slice, is an answer of this
    /// implementation for the verifier. To be stated by the implementation:
    /// left at `true`, no span is large enough for it.
    open spec fn spake2p_verifier_answer(&self, r: Result<Seq<u8>, ChipError>) -> bool {
        true
    }

    /// The verifier.
    fn spake2p_verifier(&self) -> (r: Result<&[u8], ChipError>)
        ensures
            self.spake2p_verifier_answer(bytes_of(r)),
    ;
}

impl<C> ComissionableDataProviderCallback for &C where C: ComissionableDataProviderCallback {
    open spec fn setup_discriminator_answer(&self, r: Result<u16, ChipError>) -> bool {
        (**self).setup_discriminator_answer(r)
    }

    fn setup_discriminator(&self) -> (r: Result<u16, ChipError>) {
        (*self).setup_discriminator()
    }

    open spec fn setup_passcode_answer(&self, r: Result<u32, ChipError>) -> bool {
        (**self).setup_passcode_answer(r)
    }

    fn setup_passcode(&self) -> (r: Result<u32, ChipError>) {
        (*self).setup_passcode()
    }

    open spec fn spake2p_iteration_count_answer(&self, r: Result<u32, ChipError>) -> bool {
        (**self).spake2p_iteration_count_answer(r)
    }

    fn spake2p_iteration_count(&self) -> (r: Result<u32, ChipError>) {
        (*self).spake2p_iteration_count()
    }

    open spec fn spake2p_salt_answer(&self, r: Result<Seq<u8>, ChipError>) -> bool {
        (**self).spake2p_salt_answer(r)
    }

    fn spake2p_salt(&self) -> (r: Result<&[u8], ChipError>) {
        (*self).spake2p_salt()
    }

    open spec fn spake2p_verifier_answer(&self, r: Result<Seq<u8>, ChipError>) -> bool {
        (**self).spake2p_verifier_answer(r)
    }

    fn spake2p_verifier(&self) -> (r: Result<&[u8], ChipError>) {
        (*self).spake2p_verifier()
    }
}

impl<C> ComissionableDataProviderCallback for &mut C where
    C: ComissionableDataProviderCallback,
 {
    open spec fn setup_discriminator_answer(&self, r: Result<u16, ChipError>) -> bool {
        (**self).setup_discriminator_answer(r)
    }

    fn setup_discriminator(&self) -> (r: Result<u16, ChipError>) {
        (**self).setup_discriminator()
    }

    open spec fn setup_passcode_answer(&self, r: Result<u32, ChipError>) -> bool {
        (**self).setup_passcode_answer(r)
    }

    fn setup_passcode(&self) -> (r: Result<u32, ChipError>) {
        (**self).setup_passcode()
    }

    open spec fn spake2p_iteration_count_answer(&self, r: Result<u32, ChipError>) -> bool {
        (**self).spake2p_iteration_count_answer(r)
    }

    fn spake2p_iteration_count(&self) -> (r: Result<u32, ChipError>) {
        (**self).spake2p_iteration_count()
    }

    open spec fn spake2p_salt_answer(&self, r: Result<Seq<u8>, ChipError>) -> bool {
        (**self).spake2p_salt_answer(r)
    }

    fn spake2p_salt(&self) -> (r: Result<&[u8], ChipError>) {
        (**self).spake2p_salt()
    }

    open spec fn spake2p_verifier_answer(&self, r: Result<Seq<u8>, ChipError>) -> bool {
        (**self).spake2p_verifier_answer(r)
    }

    fn spake2p_verifier(&self) -> (r: Result<&[u8], ChipError>) {
        (**self).spake2p_verifier()
    }
}

/// A result with the bytes of its slice.
pub open spec fn bytes_of(r: Result<&[u8], ChipError>) -> Result<Seq<u8>, ChipError> {
    match r {
        Ok(bytes) => Ok(bytes@),
        Err(e) => Err(e),
    }
}

/// How a getter of the registry answers for a result of the host: a value
/// is written and the status is success; an error is the status, and
/// nothing is written.
pub open spec fn written<T>(
    r: Result<T, ChipError>,
    before: T,
    after: T,
    status: CHIP_ERROR,
) -> bool {
    match r {
        Ok(value) => after == value && status == 0,
        Err(e) => after == before && status == e.0,
    }
}

impl<C> crate::callbacks::ComissionableDataProviderCallback for C where
    C: ComissionableDataProviderCallback,
 {
    /// An answer of [`ComissionableDataProviderCallback::setup_discriminator`],
    /// written.
    open spec fn setup_discriminator_answer(
        &self,
        before: u16,
        after: u16,
        status: CHIP_ERROR,
    ) -> bool {
        exists|r: Result<u16, ChipError>|
            #[trigger] ComissionableDataProviderCallback::setup_discriminator_answer(self, r)
                && written(r, before, after, status)
    }

    fn get_setup_discriminator(&self, setup_discriminator: &mut u16) -> (status: CHIP_ERROR) {
        let r = ComissionableDataProviderCallback::setup_discriminator(self);
        let err = match r {
            Ok(value) => {
                *setup_discriminator = value;
                ChipError::from_code(0)
            },
            Err(err) => err,
        };
        err.error()
    }

    /// An answer of [`ComissionableDataProviderCallback::setup_passcode`],
    /// written.
    open spec fn setup_passcode_answer(&self, before: u32, after: u32, status: CHIP_ERROR) -> bool {
        exists|r: Result<u32, ChipError>|
            #[trigger] ComissionableDataProviderCallback::setup_passcode_answer(self, r)
                && written(r, before, after, status)
    }

    fn get_setup_passcode(&self, setup_passcode: &mut u32) -> (status: CHIP_ERROR) {
        let r = ComissionableDataProviderCallback::setup_passcode(self);
        let err = match r {
            Ok(value) => {
                *setup_passcode = value;
                ChipError::from_code(0)
            },
            Err(err) => err,
        };
        err.error()
    }

    /// An answer of
    /// [`ComissionableDataProviderCallback::spake2p_iteration_count`],
    /// written.
    open spec fn spake2p_iteration_count_answer(
        &self,
        before: u32,
        after: u32,
        status: CHIP_ERROR,
    ) -> bool {
        exists|r: Result<u32, ChipError>|
            #[trigger] ComissionableDataProviderCallback::spake2p_iteration_count_answer(self, r)
                && written(r, before, after, status)
    }

    fn get_spake2p_iteration_count(&self, iteration_count: &mut u32) -> (status: CHIP_ERROR) {
        let r = ComissionableDataProviderCallback::spake2p_iteration_count(self);
        let err = match r {
            Ok(value) => {
                *iteration_count = value;
                ChipError::from_code(0)
            },
            Err(err) => err,
        };
        err.error()
    }

    /// Whatever salt this implementation answers with, the span holds at
    /// least as many bytes. This is false of every size where the
    /// implementation has not stated its salt.
    open spec fn salt_fits(&self, size: nat) -> bool {
        forall|bytes: Seq<u8>| #[trigger]
            ComissionableDataProviderCallback::spake2p_salt_answer(self, Ok(bytes))
                ==> bytes.len() <= size
    }

    /// An answer of [`ComissionableDataProviderCallback::spake2p_salt`],
    /// written: the span holds the salt and nothing else.
    open spec fn spake2p_salt_answer(
        &self,
        before: Seq<u8>,
        after: Seq<u8>,
        status: CHIP_ERROR,
    ) -> bool {
        exists|r: Result<Seq<u8>, ChipError>|
            #[trigger] ComissionableDataProviderCallback::spake2p_salt_answer(self, r)
                && written(r, before, after, status)
    }

    fn get_spake2p_salt(&self, salt_buf: &mut Vec<u8>) -> (status: CHIP_ERROR) {
        let r = ComissionableDataProviderCallback::spake2p_salt(self);
        let err = match r {
            Ok(value) => {
                crate::callbacks::fill_span(salt_buf, value);
                ChipError::from_code(0)
            },
            Err(err) => err,
        };
        err.error()
    }

    /// Whatever verifier this implementation answers with, the span holds
    /// at least as many bytes. This is false of every size where the
    /// implementation has not stated its verifier.
    open spec fn verifier_fits(&self, size: nat) -> bool {
        forall|bytes: Seq<u8>| #[trigger]
            ComissionableDataProviderCallback::spake2p_verifier_answer(self, Ok(bytes))
                ==> bytes.len() <= size
    }

    /// An answer of [`ComissionableDataProviderCallback::spake2p_verifier`],
    /// written: the span holds the verifier and nothing else, and the
    /// length is the verifier's. On an error the length is as before.
    open spec fn spake2p_verifier_answer(
        &self,
        before: Seq<u8>,
        after: Seq<u8>,
        len_before: usize,
        len_after: usize,
        status: CHIP_ERROR,
    ) -> bool {
        exists|r: Result<Seq<u8>, ChipError>|
            {
                &&& #[trigger] ComissionableDataProviderCallback::spake2p_verifier_answer(self, r)
                &&& written(r, before, after, status)
                &&& len_after == match r {
                    Ok(bytes) => bytes.len(),
                    Err(_) => len_before as nat,
                }
            }
    }

    fn get_spake2p_verifier(
        &self,
        verifier_buf: &mut Vec<u8>,
        out_verifier_len: &mut usize,
    ) -> (status: CHIP_ERROR) {
        let r = ComissionableDataProviderCallback::spake2p_verifier(self);
        let err = match r {
            Ok(value) => {
                crate::callbacks::fill_span(verifier_buf, value);
                *out_verifier_len = value.len();
                ChipError::from_code(0)
            },
            Err(err) => err,
        };
        err.error()
    }
}

/// The discriminator of the test data.
pub const TEST_SETUP_DISCRIMINATOR: u16 = 3840;

/// The passcode of the test data.
pub const TEST_SETUP_PASSCODE: u32 = 20202021;

/// The iteration count of the test data.
pub const TEST_SPAKE2P_ITERATION_COUNT: u32 = 1000;

/// The salt of the test data: the text "SPAKE2P Key Salt".
pub open spec fn test_spake2p_salt() -> Seq<u8> {
    seq![
        0x53u8, 0x50u8, 0x41u8, 0x4Bu8, 0x45u8, 0x32u8, 0x50u8, 0x20u8, 0x4Bu8, 0x65u8, 0x79u8,
        0x20u8, 0x53u8, 0x61u8, 0x6Cu8, 0x74u8,
    ]
}

/// The verifier of the test data.
pub open spec fn test_spake2p_verifier() -> Seq<u8> {
    seq![
        0xB9u8, 0x61u8, 0x70u8, 0xAAu8, 0xE8u8, 0x03u8, 0x34u8, 0x68u8, 0x84u8, 0x72u8, 0x4Fu8,
        0xE9u8, 0xA3u8, 0xB2u8, 0x87u8, 0xC3u8, 0x03u8, 0x30u8, 0xC2u8, 0xA6u8, 0x60u8, 0x37u8,
        0x5Du8, 0x17u8, 0xBBu8, 0x20u8, 0x5Au8, 0x8Cu8, 0xF1u8, 0xAEu8, 0xCBu8, 0x35u8, 0x04u8,
        0x57u8, 0xF8u8, 0xABu8, 0x79u8, 0xEEu8, 0x25u8, 0x3Au8, 0xB6u8, 0xA8u8, 0xE4u8, 0x6Bu8,
        0xB0u8, 0x9Eu8, 0x54u8, 0x3Au8, 0xE4u8, 0x22u8, 0x73u8, 0x6Du8, 0xE5u8, 0x01u8, 0xE3u8,
        0xDBu8, 0x37u8, 0xD4u8, 0x41u8, 0xFEu8, 0x34u8, 0x49u8, 0x20u8, 0xD0u8, 0x95u8, 0x48u8,
        0xE4u8, 0xC1u8, 0x82u8, 0x40u8, 0x63u8, 0x0Cu8, 0x4Fu8, 0xF4u8, 0x91u8, 0x3Cu8, 0x53u8,
        0x51u8, 0x38u8, 0x39u8, 0xB7u8, 0xC0u8, 0x7Fu8, 0xCCu8, 0x06u8, 0x27u8, 0xA1u8, 0xB8u8,
        0x57u8, 0x3Au8, 0x14u8, 0x9Fu8, 0xCDu8, 0x1Fu8, 0xA4u8, 0x66u8, 0xCFu8,
    ]
}

/// The salt of the test data.
pub fn test_salt() -> (r: &'static [u8])
    ensures
        r@ == test_spake2p_salt(),
{
    let bytes: &'static [u8] = &[
        0x53u8, 0x50u8, 0x41u8, 0x4Bu8, 0x45u8, 0x32u8, 0x50u8, 0x20u8, 0x4Bu8, 0x65u8, 0x79u8,
        0x20u8, 0x53u8, 0x61u8, 0x6Cu8, 0x74u8,
    ];
    assert(bytes@ =~= test_spake2p_salt());
    bytes
}

/// The verifier of the test data.
pub fn test_verifier() -> (r: &'static [u8])
    ensures
        r@ == test_spake2p_verifier(),
{
    let bytes: &'static [u8] = &[
        0xB9u8, 0x61u8, 0x70u8, 0xAAu8, 0xE8u8, 0x03u8, 0x34u8, 0x68u8, 0x84u8, 0x72u8, 0x4Fu8,
        0xE9u8, 0xA3u8, 0xB2u8, 0x87u8, 0xC3u8, 0x03u8, 0x30u8, 0xC2u8, 0xA6u8, 0x60u8, 0x37u8,
        0x5Du8, 0x17u8, 0xBBu8, 0x20u8, 0x5Au8, 0x8Cu8, 0xF1u8, 0xAEu8, 0xCBu8, 0x35u8, 0x04u8,
        0x57u8, 0xF8u8, 0xABu8, 0x79u8, 0xEEu8, 0x25u8, 0x3Au8, 0xB6u8, 0xA8u8, 0xE4u8, 0x6Bu8,
        0xB0u8, 0x9Eu8, 0x54u8, 0x3Au8, 0xE4u8, 0x22u8, 0x73u8, 0x6Du8, 0xE5u8, 0x01u8, 0xE3u8,
        0xDBu8, 0x37u8, 0xD4u8, 0x41u8, 0xFEu8, 0x34u8, 0x49u8, 0x20u8, 0xD0u8, 0x95u8, 0x48u8,
        0xE4u8, 0xC1u8, 0x82u8, 0x40u8, 0x63u8, 0x0Cu8, 0x4Fu8, 0xF4u8, 0x91u8, 0x3Cu8, 0x53u8,
        0x51u8, 0x38u8, 0x39u8, 0xB7u8, 0xC0u8, 0x7Fu8, 0xCCu8, 0x06u8, 0x27u8, 0xA1u8, 0xB8u8,
        0x57u8, 0x3Au8, 0x14u8, 0x9Fu8, 0xCDu8, 0x1Fu8, 0xA4u8, 0x66u8, 0xCFu8,
    ];
    assert(bytes@ =~= test_spake2p_verifier());
    bytes
}

/// A provider of fixed commissioning data, for tests only.
pub struct TestComissionableDataProvider;

impl ComissionableDataProviderCallback for TestComissionableDataProvider {
    open spec fn setup_discriminator_answer(&self, r: Result<u16, ChipError>) -> bool {
        r == Ok::<u16, ChipError>(TEST_SETUP_DISCRIMINATOR)
    }

    fn setup_discriminator(&self) -> (r: Result<u16, ChipError>) {
        Ok(TEST_SETUP_DISCRIMINATOR)
    }

    open spec fn setup_passcode_answer(&self, r: Result<u32, ChipError>) -> bool {
        r == Ok::<u32, ChipError>(TEST_SETUP_PASSCODE)
    }

    fn setup_passcode(&self) -> (r: Result<u32, ChipError>) {
        Ok(TEST_SETUP_PASSCODE)
    }

    open spec fn spake2p_iteration_count_answer(&self, r: Result<u32, ChipError>) -> bool {
        r == Ok::<u32, ChipError>(TEST_SPAKE2P_ITERATION_COUNT)
    }

    fn spake2p_iteration_count(&self) -> (r: Result<u32, ChipError>) {
        Ok(TEST_SPAKE2P_ITERATION_COUNT)
    }

    open spec fn spake2p_salt_answer(&self, r: Result<Seq<u8>, ChipError>) -> bool {
        r == Ok::<Seq<u8>, ChipError>(test_spake2p_salt())
    }

    fn spake2p_salt(&self) -> (r: Result<&[u8], ChipError>) {
        Ok(test_salt())
    }

    open spec fn spake2p_verifier_answer(&self, r: Result<Seq<u8>, ChipError>) -> bool {
        r == Ok::<Seq<u8>, ChipError>(test_spake2p_verifier())
    }

    fn spake2p_verifier(&self) -> (r: Result<&[u8], ChipError>) {
        Ok(test_verifier())
    }
}

/// One of the endpoints that exist for the whole life of the process, by
/// its id.
#[derive(Copy, Clone, Debug, PartialEq, Eq, Structural)]
pub struct StaticEndpoint(pub chip_EndpointId);

impl StaticEndpoint {
    /// The root node.
    pub fn root() -> (r: Self)
        ensures
            r == StaticEndpoint(0),
    {
        StaticEndpoint(0)
    }

    /// The node that dynamic endpoints hang under.
    pub fn bridge() -> (r: Self)
        ensures
            r == StaticEndpoint(1),
    {
        StaticEndpoint(1)
    }

    /// The endpoint's id.
    pub fn id(&self) -> (r: chip_EndpointId)
        ensures
            r == self.0,
    {
        self.0
    }

    /// Gives this endpoint its device types: `Ok` where the runtime accepts
    /// the list, else the runtime's refusal.
    pub fn initialize<S>(&self, device_types: Vec<DeviceType>, set_device_type_list: &S) -> (r:
        Result<(), ChipError>) where S: Fn(chip_EndpointId, Vec<DeviceType>) -> CHIP_ERROR
        requires
            set_device_type_list.requires((self.0, device_types)),
        ensures
            exists|status: CHIP_ERROR|
                {
                    &&& #[trigger] set_device_type_list.ensures((self.0, device_types), status)
                    &&& r == ChipError::checked(status, ())
                },
    {
        let status = set_device_type_list(self.0, device_types);
        ChipError::convert(status)
    }
}

/// `r` is what [`initialize`] returns with this function of the runtime:
/// the root node was given its device types; where that was refused, `r` is
/// the refusal; else the bridge node was given its device types, and `r` is
/// what the runtime answered to that.
pub open spec fn device_types_set<S>(
    set_device_type_list: S,
    r: Result<(), ChipError>,
) -> bool where S: Fn(chip_EndpointId, Vec<DeviceType>) -> CHIP_ERROR {
    exists|root_types: Vec<DeviceType>, root: CHIP_ERROR|
        {
            &&& root_types@ == crate::chip::root_device_types()
            &&& #[trigger] set_device_type_list.ensures((0u16, root_types), root)
            &&& root != 0 ==> r == Err::<(), ChipError>(ChipError(root))
            &&& root == 0 ==> exists|bridge_types: Vec<DeviceType>, bridge: CHIP_ERROR|
                {
                    &&& bridge_types@ == crate::chip::bridge_device_types()
                    &&& #[trigger] set_device_type_list.ensures((1u16, bridge_types), bridge)
                    &&& r == ChipError::checked(bridge, ())
                }
        }
}

/// The two functions of the runtime can be called as [`initialize`] calls
/// them: the endpoint `last` can be disabled; once that was done, the root
/// node's list can be set; once it was accepted, the bridge node's list can
/// be set. Nothing is asked for a call that comes after a refusal.
pub open spec fn device_types_callable<S, E>(
    set_device_type_list: S,
    endpoint_enable_disable: E,
    last: chip_EndpointId,
) -> bool where
    S: Fn(chip_EndpointId, Vec<DeviceType>) -> CHIP_ERROR,
    E: Fn(chip_EndpointId, bool),
 {
    &&& endpoint_enable_disable.requires((last, false))
    &&& forall|root_types: Vec<DeviceType>|
        root_types@ == crate::chip::root_device_types() && endpoint_enable_disable.ensures(
            (last, false),
            (),
        ) ==> #[trigger] set_device_type_list.requires((0u16, root_types))
    &&& forall|root_types: Vec<DeviceType>, bridge_types: Vec<DeviceType>|
        root_types@ == crate::chip::root_device_types() && bridge_types@
            == crate::chip::bridge_device_types() && #[trigger] set_device_type_list.ensures(
            (0u16, root_types),
            0,
        ) ==> #[trigger] set_device_type_list.requires((1u16, bridge_types))
}

/// Sets up the fixed endpoints: disables the endpoint at the last fixed
/// index of the table, then gives the root node and the bridge node their
/// device types. Stops at the first refusal and returns it: after a refused
/// list no further list is set.
pub fn initialize<S, E>(
    table: &EndpointTable,
    set_device_type_list: &S,
    endpoint_enable_disable: &E,
) -> (r: Result<(), ChipError>) where
    S: Fn(chip_EndpointId, Vec<DeviceType>) -> CHIP_ERROR,
    E: Fn(chip_EndpointId, bool),

    requires
        table.wf(),
        device_types_callable(
            *set_device_type_list,
            *endpoint_enable_disable,
            table@[crate::table::FIXED_ENDPOINT_COUNT - 1],
        ),
    ensures
        endpoint_enable_disable.ensures(
            (table@[crate::table::FIXED_ENDPOINT_COUNT - 1], false),
            (),
        ),
        device_types_set(*set_device_type_list, r),
{
    let last = table.endpoint_from_index(crate::table::FIXED_ENDPOINT_COUNT - 1).unwrap();
    endpoint_enable_disable(last, false);
    let mut root_types: Vec<DeviceType> = Vec::new();
    root_types.push(DeviceType::of(crate::chip::DEVICE_TYPE_ROOT_NODE));
    assert(root_types@ =~= crate::chip::root_device_types());
    let ghost given_root = root_types;
    let root = StaticEndpoint::root().initialize(root_types, set_device_type_list);
    match root {
        Err(e) => {
            assert(set_device_type_list.ensures((0u16, given_root), e.0));
            return Err(e);
        },
        Ok(()) => {
            assert(set_device_type_list.ensures((0u16, given_root), 0));
        },
    }
    let mut bridge_types: Vec<DeviceType> = Vec::new();
    bridge_types.push(DeviceType::of(crate::chip::DEVICE_TYPE_AGGREGATOR));
    assert(bridge_types@ =~= crate::chip::bridge_device_types());
    StaticEndpoint::bridge().initialize(bridge_types, set_device_type_list)
}

/// A dynamic endpoint: its id, its device types and its clusters.
pub struct Endpoint {
    id: chip_EndpointId,
    ep: EndpointType,
    device_types: Vec<DeviceType>,
}

impl Endpoint {
    /// The endpoint's id.
    pub closed spec fn spec_id(&self) -> chip_EndpointId {
        self.id
    }

    /// The endpoint's type: its clusters as the runtime reads them.
    pub closed spec fn endpoint_type(&self) -> EndpointType {
        self.ep
    }

    /// The endpoint's device types.
    pub closed spec fn device_types(&self) -> Seq<DeviceType> {
        self.device_types@
    }

    /// The endpoint `id` with the given device types and clusters.
    pub fn new(id: chip_EndpointId, device_types: Vec<DeviceType>, clusters: Vec<Cluster>) -> (r:
        Self)
        ensures
            r.spec_id() == id,
            r.device_types() == device_types@,
            r.endpoint_type()@.cluster@ == clusters@,
            r.endpoint_type()@.cluster_count == clusters@.len() % 0x100,
            r.endpoint_type()@.endpoint_size == 0,
    {
        Self { id, ep: EndpointType::new(clusters), device_types }
    }

    /// The endpoint's id.
    #[verifier::when_used_as_spec(spec_id)]
    pub fn id(&self) -> (r: chip_EndpointId)
        ensures
            r == self.spec_id(),
    {
        self.id
    }

    /// The endpoint's clusters, all of them.
    pub fn clusters(&self) -> (r: &[Cluster])
        ensures
            r@ == self.endpoint_type()@.cluster@,
    {
        self.ep.raw().cluster.as_slice()
    }

    /// The endpoint's type: its clusters as the runtime reads them.
    pub fn ep(&self) -> (r: &EndpointType)
        ensures
            *r == self.endpoint_type(),
    {
        &self.ep
    }

    /// The endpoint's device types.
    pub fn types(&self) -> (r: &[DeviceType])
        ensures
            r@ == self.device_types(),
    {
        self.device_types.as_slice()
    }

    /// Registers this endpoint in the lowest free slot of the table, with
    /// borrowed storage for the data versions.
    ///
    /// The table is scanned first: an id that it holds already is refused as
    /// a duplicate, and a table without a free slot is exhausted; in both
    /// cases the runtime is not asked. Otherwise `set_dynamic_endpoint` is
    /// called once, with the slot counted from the first dynamic index, the
    /// endpoint, the storage for the data versions and the parent's id. On
    /// success the id stands in that slot; on any other status that status
    /// is the error and the table is unchanged.
    pub fn register<'r, F>(
        &'r self,
        table: &mut EndpointTable,
        data_versions: &'r [chip_DataVersion],
        parent: &StaticEndpoint,
        set_dynamic_endpoint: F,
    ) -> (r: Result<Registration<&'r Self, &'r [chip_DataVersion]>, EmberAfError>) where
        F: FnOnce(u16, &Endpoint, &[chip_DataVersion], chip_EndpointId) -> EmberAfStatus,

        requires
            old(table).wf(),
            request_for(old(table)@, self.spec_id()) matches Ok(slot)
                ==> set_dynamic_endpoint.requires((slot, self, data_versions, parent.0)),
        ensures
            final(table).wf(),
            exists|status: EmberAfStatus|
                {
                    &&& request_for(old(table)@, self.spec_id()) matches Ok(slot)
                        ==> set_dynamic_endpoint.ensures(
                        (slot, self, data_versions, parent.0),
                        status,
                    )
                    &&& Registration::reports(
                        r,
                        self.spec_id(),
                        #[trigger] registered(old(table)@, self.spec_id(), status).0,
                    )
                    &&& final(table)@ == registered(old(table)@, self.spec_id(), status).1
                },
            r matches Ok(registration) ==> registration.holder() == self
                && registration.data_versions() == data_versions,
    {
        let id = self.id;
        match table.request(id) {
            Err(e) => {
                let r = Err(e);
                assert(Registration::reports(r, id, registered(table@, id, 0).0));
                r
            },
            Ok(slot) => {
                let status = set_dynamic_endpoint(slot, self, data_versions, parent.id());
                Registration::confirm(table, self, data_versions, id, status)
            },
        }
    }

    /// Registers this endpoint as [`Endpoint::register`] does; the
    /// registration shares the endpoint and owns the storage for the data
    /// versions.
    pub fn register_refcounted<F>(
        self: Rc<Self>,
        table: &mut EndpointTable,
        data_versions: Vec<chip_DataVersion>,
        parent: &StaticEndpoint,
        set_dynamic_endpoint: F,
    ) -> (r: Result<Registration<Rc<Self>, Vec<chip_DataVersion>>, EmberAfError>) where
        F: FnOnce(u16, &Endpoint, &Vec<chip_DataVersion>, chip_EndpointId) -> EmberAfStatus,

        requires
            old(table).wf(),
            request_for(old(table)@, self.spec_id()) matches Ok(slot)
                ==> set_dynamic_endpoint.requires((slot, &*self, &data_versions, parent.0)),
        ensures
            final(table).wf(),
            exists|status: EmberAfStatus|
                {
                    &&& request_for(old(table)@, self.spec_id()) matches Ok(slot)
                        ==> set_dynamic_endpoint.ensures(
                        (slot, &*self, &data_versions, parent.0),
                        status,
                    )
                    &&& Registration::reports(
                        r,
                        self.spec_id(),
                        #[trigger] registered(old(table)@, self.spec_id(), status).0,
                    )
                    &&& final(table)@ == registered(old(table)@, self.spec_id(), status).1
                },
            r matches Ok(registration) ==> registration.holder() == self
                && registration.data_versions() == data_versions,
    {
        let id = self.id;
        match table.request(id) {
            Err(e) => {
                let r = Err(e);
                assert(Registration::reports(r, id, registered(table@, id, 0).0));
                r
            },
            Ok(slot) => {
                let status = set_dynamic_endpoint(slot, &*self, &data_versions, parent.id());
                Registration::confirm(table, self, data_versions, id, status)
            },
        }
    }
    /// Registers the endpoint `id` as [`Endpoint::register`] does, for any
    /// way of holding the endpoint and the storage for the data versions:
    /// `set_dynamic_endpoint` is handed the slot, the id, the two holders
    /// and the parent's id, and the registration keeps the holders.
    pub fn register_generic<S, V, F>(
        this: S,
        id: chip_EndpointId,
        table: &mut EndpointTable,
        data_versions: V,
        parent: &StaticEndpoint,
        set_dynamic_endpoint: F,
    ) -> (r: Result<Registration<S, V>, EmberAfError>) where
        F: FnOnce(u16, chip_EndpointId, &S, &V, chip_EndpointId) -> EmberAfStatus,

        requires
            old(table).wf(),
            request_for(old(table)@, id) matches Ok(slot) ==> set_dynamic_endpoint.requires(
                (slot, id, &this, &data_versions, parent.0),
            ),
        ensures
            final(table).wf(),
            exists|status: EmberAfStatus|
                {
                    &&& request_for(old(table)@, id) matches Ok(slot)
                        ==> set_dynamic_endpoint.ensures(
                        (slot, id, &this, &data_versions, parent.0),
                        status,
                    )
                    &&& Registration::reports(
                        r,
                        id,
                        #[trigger] registered(old(table)@, id, status).0,
                    )
                    &&& final(table)@ == registered(old(table)@, id, status).1
                },
            r matches Ok(registration) ==> registration.holder() == this
                && registration.data_versions() == data_versions,
    {
        match table.request(id) {
            Err(e) => {
                let r = Err(e);
                assert(Registration::reports(r, id, registered(table@, id, 0).0));
                r
            },
            Ok(slot) => {
                let status = set_dynamic_endpoint(slot, id, &this, &data_versions, parent.id());
                Registration::confirm(table, this, data_versions, id, status)
            },
        }
    }
}

/// The live binding of an endpoint to a dynamic slot of the table. It keeps
/// what the runtime reads for as long as it lasts: the endpoint, held as
/// `S`, and the storage for the data versions, held as `V`.
pub struct Registration<S, V> {
    endpoint: S,
    data_versions: V,
    id: chip_EndpointId,
}

impl<S, V> Registration<S, V> {
    /// The id of the registered endpoint.
    pub closed spec fn endpoint(&self) -> chip_EndpointId {
        self.id
    }

    /// What holds the endpoint.
    pub closed spec fn holder(&self) -> S {
        self.endpoint
    }

    /// What holds the storage for the data versions.
    pub closed spec fn data_versions(&self) -> V {
        self.data_versions
    }

    /// `r` is what a registration of `id` returns where the table's part of
    /// it ended in `outcome`: a registration of `id` for a slot, the same
    /// error for an error.
    pub open spec fn reports(
        r: Result<Self, EmberAfError>,
        id: chip_EndpointId,
        outcome: Result<u16, EmberAfError>,
    ) -> bool {
        match outcome {
            Ok(_) => r is Ok && r->Ok_0.endpoint() == id,
            Err(e) => r is Err && r->Err_0 == e,
        }
    }

    /// Registers the endpoint `id`, given the status with which the runtime
    /// answers the request to set it up; `status` is not read where no
    /// request is owed. The registration keeps `endpoint` and
    /// `data_versions`.
    ///
    /// An id that any index of the table holds is refused as a duplicate.
    /// Otherwise, with no free slot, the table is exhausted. Otherwise the
    /// lowest free slot is asked for: on success `id` stands in it, on any
    /// other status that status is the error and the table is unchanged.
    pub fn confirm(
        table: &mut EndpointTable,
        endpoint: S,
        data_versions: V,
        id: chip_EndpointId,
        status: EmberAfStatus,
    ) -> (r: Result<Self, EmberAfError>)
        requires
            old(table).wf(),
        ensures
            final(table).wf(),
            Self::reports(r, id, registered(old(table)@, id, status).0),
            final(table)@ == registered(old(table)@, id, status).1,
            r matches Ok(registration) ==> registration.holder() == endpoint
                && registration.data_versions() == data_versions,
    {
        match table.settle(id, status) {
            Ok(_) => Ok(Registration { endpoint, data_versions, id }),
            Err(e) => Err(e),
        }
    }

    /// Enables or disables the registered endpoint: looks up its index and
    /// hands the id that the table holds there.
    pub fn enable<E>(&self, table: &EndpointTable, enable: bool, endpoint_enable_disable: E) where
        E: FnOnce(chip_EndpointId, bool),

        requires
            table.wf(),
            table@.contains(self.endpoint()),
            endpoint_enable_disable.requires((self.endpoint(), enable)),
        ensures
            endpoint_enable_disable.ensures((self.endpoint(), enable), ()),
    {
        let found = self.index(table);
        assert(found is Some);
        let index = found.unwrap();
        let endpoint = table.endpoint_from_index(index as u16).unwrap();
        endpoint_enable_disable(endpoint, enable)
    }

    /// The index at which the table holds this registration's id.
    pub fn index(&self, table: &EndpointTable) -> (r: Option<usize>)
        requires
            table.wf(),
        ensures
            match r {
                Some(i) => is_first_index(table@, self.endpoint(), i as int),
                None => !table@.contains(self.endpoint()),
            },
    {
        Self::find_index(table, self.id)
    }

    /// The lowest index at which the table holds `id`: a scan over all
    /// indices, fixed and dynamic. `None` where no index holds it.
    pub fn find_index(table: &EndpointTable, id: chip_EndpointId) -> (r: Option<usize>)
        requires
            table.wf(),
        ensures
            match r {
                Some(i) => is_first_index(table@, id, i as int),
                None => !table@.contains(id),
            },
    {
        match table.find_index(id) {
            Some(index) => Some(index as usize),
            None => None,
        }
    }

    /// Ends the registration: frees the slot that holds its id, and calls
    /// `clear_dynamic_endpoint` once with that slot, counted from the first
    /// dynamic index. No other index of the table changes. What the
    /// registration kept is handed back.
    pub fn release<C>(self, table: &mut EndpointTable, clear_dynamic_endpoint: C) -> (r: (
        S,
        V,
    )) where C: FnOnce(u16)

        requires
            old(table).wf(),
            is_registered(old(table)@, self.endpoint()),
            clear_dynamic_endpoint.requires(
                (dynamic_slot(old(table)@, self.endpoint()),),
            ),
        ensures
            final(table).wf(),
            final(table)@ == released(old(table)@, self.endpoint()),
            clear_dynamic_endpoint.ensures(
                (dynamic_slot(old(table)@, self.endpoint()),),
                (),
            ),
            r == (self.holder(), self.data_versions()),
    {
        let freed = table.release(self.id);
        let slot = freed.unwrap();
        clear_dynamic_endpoint(slot);
        (self.endpoint, self.data_versions)
    }
}

} // verus!
