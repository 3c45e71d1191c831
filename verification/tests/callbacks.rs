use std::cell::{Cell, RefCell};

use chip_sys::callbacks::{
    initialize, lock, Callbacks, ComissionableDataProviderCallback, CommandHandler,
    ConcreteCommandPath, EmberCallback, InstantAction, CHIP_ERROR_NOT_IMPLEMENTED,
};
use chip_sys::chip::{test_comissionable_data, ChipContext, ComissionableData};
use chip_sys::descriptor::Attribute;
use chip_sys::dynamic::TestComissionableDataProvider;
use chip_sys::error::{
    EmberAfError, EmberAfStatus, EmberAfStatus_EMBER_ZCL_STATUS_FAILURE, CHIP_ERROR,
};

/// Records every call and answers with fixed values.
struct Recorder {
    log: RefCell<Vec<String>>,
    handled: bool,
    status: EmberAfStatus,
}

impl Recorder {
    fn new(handled: bool, status: EmberAfStatus) -> Self {
        Recorder { log: RefCell::new(Vec::new()), handled, status }
    }
}

impl EmberCallback for Recorder {
    fn cluster_instant_action(
        &self,
        command_obj: CommandHandler,
        command_path: &ConcreteCommandPath,
        command_data: &InstantAction,
    ) -> bool {
        self.log.borrow_mut().push(format!("{:?} {:?} {:?}", command_obj, command_path, command_data));
        self.handled
    }

    fn external_attribute_read(
        &self,
        endpoint_id: u16,
        cluster_id: u32,
        attribute: &Attribute,
        buffer: &mut [u8],
    ) -> EmberAfStatus {
        self.log.borrow_mut().push(format!(
            "read {} {} {} {}",
            endpoint_id,
            cluster_id,
            attribute.id(),
            buffer.len()
        ));
        buffer[0] = 0xAB;
        self.status
    }

    fn external_attribute_write(
        &self,
        endpoint_id: u16,
        cluster_id: u32,
        attribute: &Attribute,
        buffer: &[u8],
    ) -> EmberAfStatus {
        self.log.borrow_mut().push(format!(
            "write {} {} {} {:?}",
            endpoint_id,
            cluster_id,
            attribute.id(),
            buffer
        ));
        self.status
    }
}

/// A provider that answers every request with one status and writes marks.
struct Marks(CHIP_ERROR);

impl ComissionableDataProviderCallback for Marks {
    fn get_setup_discriminator(&self, setup_discriminator: &mut u16) -> CHIP_ERROR {
        *setup_discriminator = 0x111;
        self.0
    }

    fn get_setup_passcode(&self, setup_passcode: &mut u32) -> CHIP_ERROR {
        *setup_passcode = 0x222;
        self.0
    }

    fn get_spake2p_iteration_count(&self, iteration_count: &mut u32) -> CHIP_ERROR {
        *iteration_count = 0x333;
        self.0
    }

    fn get_spake2p_salt(&self, salt_buf: &mut Vec<u8>) -> CHIP_ERROR {
        salt_buf.truncate(1);
        salt_buf[0] = 0x44;
        self.0
    }

    fn get_spake2p_verifier(&self, verifier_buf: &mut Vec<u8>, out_verifier_len: &mut usize) -> CHIP_ERROR {
        verifier_buf.truncate(2);
        verifier_buf[0] = 0x55;
        verifier_buf[1] = 0x66;
        *out_verifier_len = 2;
        self.0
    }
}

type Empty = Callbacks<fn(), fn(), Recorder, fn(), Marks>;

fn empty() -> Empty {
    initialize(None, None, None, None)
}

fn path() -> ConcreteCommandPath {
    ConcreteCommandPath { endpoint_id: 3, cluster_id: 0x25, command_id: 0 }
}

fn action() -> InstantAction {
    InstantAction { action_id: 9, invoke_id: Some(77) }
}

#[test]
fn empty_registry_answers_with_the_defaults() {
    let callbacks = empty();
    assert!(callbacks.cluster_instant_action(CommandHandler(1), &path(), &action()));
    let mut buffer = vec![1, 2, 3];
    assert_eq!(
        callbacks.external_attribute_read(3, 6, &Attribute::boolean(0), &mut buffer),
        EmberAfStatus_EMBER_ZCL_STATUS_FAILURE
    );
    assert_eq!(buffer, vec![1, 2, 3]);
    assert_eq!(
        callbacks.external_attribute_write(3, 6, &Attribute::boolean(0), &[1]),
        EmberAfStatus_EMBER_ZCL_STATUS_FAILURE
    );
    callbacks.actions_plugin_server_init();
    let mut discriminator = 5u16;
    assert_eq!(callbacks.get_setup_discriminator(&mut discriminator), 0x2d);
    assert_eq!(discriminator, 5);
    let mut passcode = 6u32;
    assert_eq!(callbacks.get_setup_passcode(&mut passcode), 0x2d);
    assert_eq!(passcode, 6);
    let mut count = 7u32;
    assert_eq!(callbacks.get_spake2p_iteration_count(&mut count), 0x2d);
    assert_eq!(count, 7);
    let mut salt = vec![0u8; 32];
    assert_eq!(callbacks.get_spake2p_salt(&mut salt), CHIP_ERROR_NOT_IMPLEMENTED);
    assert_eq!(salt, vec![0u8; 32]);
    let mut verifier = vec![9u8; 4];
    let mut len = 8usize;
    assert_eq!(callbacks.get_spake2p_verifier(&mut verifier, &mut len), 0x2d);
    assert_eq!(verifier, vec![9u8; 4]);
    assert_eq!(len, 8);
}

#[test]
fn installed_callback_gets_the_arguments_and_its_answer_is_returned() {
    for (handled, status) in [(true, 0u8), (false, 0x86), (false, 1)] {
        let callbacks: Callbacks<fn(), fn(), Recorder, fn(), Marks> =
            initialize(None, Some(Recorder::new(handled, status)), None, None);
        assert_eq!(callbacks.cluster_instant_action(CommandHandler(0x1000), &path(), &action()), handled);
        let mut buffer = vec![0u8; 4];
        assert_eq!(
            callbacks.external_attribute_read(3, 6, &Attribute::boolean(0x11), &mut buffer),
            status
        );
        assert_eq!(buffer, vec![0xAB, 0, 0, 0]);
        assert_eq!(
            callbacks.external_attribute_write(4, 8, &Attribute::u8(0x0F), &[1, 2]),
            status
        );
        let log = callbacks.ember.as_ref().unwrap().log.borrow().clone();
        assert_eq!(
            log,
            vec![
                format!("{:?} {:?} {:?}", CommandHandler(0x1000), path(), action()),
                "read 3 6 17 4".to_string(),
                "write 4 8 15 [1, 2]".to_string(),
            ]
        );
    }
}

#[test]
fn installed_provider_gets_the_arguments_and_its_answer_is_returned() {
    for status in [0u32, 0x2f, 0xac] {
        let callbacks: Callbacks<fn(), fn(), Recorder, fn(), Marks> =
            initialize(None, None, None, Some(Marks(status)));
        let mut discriminator = 0u16;
        assert_eq!(callbacks.get_setup_discriminator(&mut discriminator), status);
        assert_eq!(discriminator, 0x111);
        let mut passcode = 0u32;
        assert_eq!(callbacks.get_setup_passcode(&mut passcode), status);
        assert_eq!(passcode, 0x222);
        let mut count = 0u32;
        assert_eq!(callbacks.get_spake2p_iteration_count(&mut count), status);
        assert_eq!(count, 0x333);
        let mut salt = vec![0u8; 32];
        assert_eq!(callbacks.get_spake2p_salt(&mut salt), status);
        assert_eq!(salt, vec![0x44]);
        let mut verifier = vec![0u8; 97];
        let mut len = 0usize;
        assert_eq!(callbacks.get_spake2p_verifier(&mut verifier, &mut len), status);
        assert_eq!(verifier, vec![0x55, 0x66]);
        assert_eq!(len, 2);
    }
}

#[test]
fn init_hook_runs_once_per_call() {
    let runs = Cell::new(0);
    let hook = || runs.set(runs.get() + 1);
    let callbacks = initialize::<fn(), fn(), Recorder, _, Marks>(None, None, Some(hook), None);
    callbacks.actions_plugin_server_init();
    callbacks.actions_plugin_server_init();
    assert_eq!(runs.get(), 2);
}

#[test]
fn initialize_fills_the_slots_it_is_given() {
    let callbacks: Callbacks<fn(), fn(), Recorder, fn(), Marks> =
        initialize(None, Some(Recorder::new(true, 0)), None, Some(Marks(0)));
    assert!(callbacks.lock.is_none());
    assert!(callbacks.ember.is_some());
    assert!(callbacks.actions_plugin_server_init.is_none());
    assert!(callbacks.comissionable_data_provider.is_some());
}

#[test]
fn lock_runs_between_lock_and_unlock() {
    let log = RefCell::new(Vec::new());
    let hooks = Some((|| log.borrow_mut().push("lock"), || log.borrow_mut().push("unlock")));
    let result = lock(&hooks, || {
        log.borrow_mut().push("body");
        42
    });
    assert_eq!(result, 42);
    assert_eq!(*log.borrow(), vec!["lock", "body", "unlock"]);
    let none: Option<(fn(), fn())> = None;
    assert_eq!(lock(&none, || 7), 7);
}

#[test]
fn chip_lock_hands_a_context() {
    let log = RefCell::new(Vec::new());
    let hooks = Some((|| log.borrow_mut().push("lock"), || log.borrow_mut().push("unlock")));
    let result = chip_sys::chip::lock(&hooks, |ctx: &ChipContext| {
        log.borrow_mut().push("body");
        let reported = Cell::new(0);
        ctx.endpoint_updated(5, |id| reported.set(id));
        reported.get()
    });
    assert_eq!(result, 5);
    assert_eq!(*log.borrow(), vec!["lock", "body", "unlock"]);
}

/// A light in the host's own terms.
struct Light {
    on: Cell<bool>,
}

impl chip_sys::chip::EmberCallback for Light {
    fn invoke(
        &self,
        _ctx: &ChipContext,
        _command_obj: CommandHandler,
        _command_path: &ConcreteCommandPath,
        command_data: &InstantAction,
    ) -> bool {
        command_data.action_id == 9
    }

    fn read(
        &self,
        _ctx: &ChipContext,
        endpoint_id: u16,
        cluster_id: u32,
        attribute: &Attribute,
        buffer: &mut [u8],
    ) -> Result<(), EmberAfError> {
        if endpoint_id == 3 && cluster_id == 6 && attribute.id() == 0 {
            buffer[0] = self.on.get() as u8;
            Ok(())
        } else {
            Err(EmberAfError::from(EmberAfStatus_EMBER_ZCL_STATUS_FAILURE))
        }
    }

    fn write(
        &self,
        _ctx: &ChipContext,
        endpoint_id: u16,
        cluster_id: u32,
        attribute: &Attribute,
        buffer: &[u8],
    ) -> Result<(), EmberAfError> {
        if endpoint_id == 3 && cluster_id == 6 && attribute.id() == 0 {
            self.on.set(buffer[0] != 0);
            Ok(())
        } else {
            Err(EmberAfError::from(0x86))
        }
    }
}

#[test]
fn host_callback_is_reached_through_the_registry() {
    let light = Light { on: Cell::new(false) };
    let callbacks: Callbacks<fn(), fn(), &Light, fn(), Marks> =
        initialize(None, Some(&light), None, None);
    assert!(callbacks.cluster_instant_action(CommandHandler(0), &path(), &action()));
    let other = InstantAction { action_id: 1, invoke_id: None };
    assert!(!callbacks.cluster_instant_action(CommandHandler(0), &path(), &other));
    let on_off = Attribute::boolean(0);
    assert_eq!(callbacks.external_attribute_write(3, 6, &on_off, &[1]), 0);
    assert!(light.on.get());
    let mut buffer = vec![0u8; 1];
    assert_eq!(callbacks.external_attribute_read(3, 6, &on_off, &mut buffer), 0);
    assert_eq!(buffer, vec![1]);
    assert_eq!(callbacks.external_attribute_read(4, 6, &on_off, &mut buffer), 1);
    assert_eq!(callbacks.external_attribute_write(3, 7, &on_off, &[0]), 0x86);
    assert!(light.on.get());
}

fn expected_verifier() -> Vec<u8> {
    vec![
        0xB9, 0x61, 0x70, 0xAA, 0xE8, 0x03, 0x34, 0x68, 0x84, 0x72, 0x4F, 0xE9, 0xA3, 0xB2, 0x87,
        0xC3, 0x03, 0x30, 0xC2, 0xA6, 0x60, 0x37, 0x5D, 0x17, 0xBB, 0x20, 0x5A, 0x8C, 0xF1, 0xAE,
        0xCB, 0x35, 0x04, 0x57, 0xF8, 0xAB, 0x79, 0xEE, 0x25, 0x3A, 0xB6, 0xA8, 0xE4, 0x6B, 0xB0,
        0x9E, 0x54, 0x3A, 0xE4, 0x22, 0x73, 0x6D, 0xE5, 0x01, 0xE3, 0xDB, 0x37, 0xD4, 0x41, 0xFE,
        0x34, 0x49, 0x20, 0xD0, 0x95, 0x48, 0xE4, 0xC1, 0x82, 0x40, 0x63, 0x0C, 0x4F, 0xF4, 0x91,
        0x3C, 0x53, 0x51, 0x38, 0x39, 0xB7, 0xC0, 0x7F, 0xCC, 0x06, 0x27, 0xA1, 0xB8, 0x57, 0x3A,
        0x14, 0x9F, 0xCD, 0x1F, 0xA4, 0x66, 0xCF,
    ]
}

fn check_test_data<P: ComissionableDataProviderCallback>(provider: P) {
    let callbacks: Callbacks<fn(), fn(), Recorder, fn(), P> =
        initialize(None, None, None, Some(provider));
    let mut discriminator = 0u16;
    assert_eq!(callbacks.get_setup_discriminator(&mut discriminator), 0);
    assert_eq!(discriminator, 3840);
    let mut passcode = 0u32;
    assert_eq!(callbacks.get_setup_passcode(&mut passcode), 0);
    assert_eq!(passcode, 20202021);
    let mut count = 0u32;
    assert_eq!(callbacks.get_spake2p_iteration_count(&mut count), 0);
    assert_eq!(count, 1000);
    let mut salt = vec![0xEEu8; 32];
    assert_eq!(callbacks.get_spake2p_salt(&mut salt), 0);
    assert_eq!(salt, b"SPAKE2P Key Salt".to_vec());
    let mut exact = vec![0u8; 16];
    assert_eq!(callbacks.get_spake2p_salt(&mut exact), 0);
    assert_eq!(exact, b"SPAKE2P Key Salt".to_vec());
    let mut verifier = vec![0xEEu8; 128];
    let mut len = 0usize;
    assert_eq!(callbacks.get_spake2p_verifier(&mut verifier, &mut len), 0);
    assert_eq!(verifier, expected_verifier());
    assert_eq!(len, 97);
}

#[test]
fn test_data_as_plain_values() {
    check_test_data(test_comissionable_data());
}

#[test]
fn test_data_from_the_test_provider() {
    check_test_data(TestComissionableDataProvider);
    check_test_data(&TestComissionableDataProvider);
}

#[test]
fn plain_values_are_written_as_they_are() {
    let data = ComissionableData {
        setup_discriminator: 1,
        setup_passcode: 2,
        spake2p_iteration_count: 3,
        spake2p_salt: &[4, 5],
        spake2p_verifier: &[6, 7, 8],
    };
    let mut d = 0u16;
    assert_eq!(data.get_setup_discriminator(&mut d), 0);
    let mut p = 0u32;
    assert_eq!(data.get_setup_passcode(&mut p), 0);
    let mut c = 0u32;
    assert_eq!(data.get_spake2p_iteration_count(&mut c), 0);
    let mut salt = vec![0u8; 2];
    assert_eq!(data.get_spake2p_salt(&mut salt), 0);
    let mut verifier = vec![0u8; 5];
    let mut len = 0usize;
    assert_eq!(data.get_spake2p_verifier(&mut verifier, &mut len), 0);
    assert_eq!((d, p, c, salt, verifier, len), (1, 2, 3, vec![4, 5], vec![6, 7, 8], 3));
}

/// A provider in the host's own terms that fails every request.
struct Failing;

impl chip_sys::dynamic::ComissionableDataProviderCallback for Failing {
    fn setup_discriminator(&self) -> Result<u16, chip_sys::error::ChipError> {
        Err(chip_sys::error::ChipError::from_code(0x10))
    }

    fn setup_passcode(&self) -> Result<u32, chip_sys::error::ChipError> {
        Err(chip_sys::error::ChipError::from_code(0x11))
    }

    fn spake2p_iteration_count(&self) -> Result<u32, chip_sys::error::ChipError> {
        Err(chip_sys::error::ChipError::from_code(0x12))
    }

    fn spake2p_salt(&self) -> Result<&[u8], chip_sys::error::ChipError> {
        Err(chip_sys::error::ChipError::from_code(0x13))
    }

    fn spake2p_verifier(&self) -> Result<&[u8], chip_sys::error::ChipError> {
        Err(chip_sys::error::ChipError::from_code(0x14))
    }
}

#[test]
fn host_provider_errors_become_statuses_and_write_nothing() {
    let callbacks: Callbacks<fn(), fn(), Recorder, fn(), Failing> =
        initialize(None, None, None, Some(Failing));
    let mut d = 5u16;
    assert_eq!(callbacks.get_setup_discriminator(&mut d), 0x10);
    let mut p = 6u32;
    assert_eq!(callbacks.get_setup_passcode(&mut p), 0x11);
    let mut c = 7u32;
    assert_eq!(callbacks.get_spake2p_iteration_count(&mut c), 0x12);
    let mut salt = vec![1u8; 3];
    assert_eq!(callbacks.get_spake2p_salt(&mut salt), 0x13);
    let mut verifier = vec![2u8; 3];
    let mut len = 9usize;
    assert_eq!(callbacks.get_spake2p_verifier(&mut verifier, &mut len), 0x14);
    assert_eq!((d, p, c, salt, verifier, len), (5, 6, 7, vec![1; 3], vec![2; 3], 9));
}
