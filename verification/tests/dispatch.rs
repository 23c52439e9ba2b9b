use asset_store::{
    update_asset_storage_system, AssetChannel, AssetEvent, AssetLoader, Assets, DecodeError,
    Events, Handle, LoaderRegistry, RegistrationError,
};

#[derive(Clone)]
struct TextLoader;

impl AssetLoader<String> for TextLoader {
    fn from_bytes(&self, bytes: &[u8]) -> Result<String, DecodeError> {
        match std::str::from_utf8(bytes) {
            Ok(text) => Ok(text.to_owned()),
            Err(_) => Err(DecodeError {
                message: String::from("not valid utf-8"),
            }),
        }
    }
}

#[test]
fn delivered_content_is_visible_in_the_same_cycle() {
    let mut store: Assets<String> = Assets::default();
    let mut stream: Events<AssetEvent<String>> = Events::new();
    let channel: AssetChannel<String> = AssetChannel::new();
    let handle = Handle::from_id(77);

    channel
        .sender
        .send((handle.id(), String::from("decoded")))
        .unwrap();

    // One cycle: dispatch strictly before the drain.
    update_asset_storage_system(&channel, &mut store);
    Assets::asset_event_system(&mut stream, &mut store);

    assert_eq!(store.get(&handle), Some(&String::from("decoded")));
    let published = stream.drain();
    assert_eq!(published.len(), 1);
    assert!(matches!(published[0], AssetEvent::Created { handle: h } if h == handle));
}

#[test]
fn dispatch_applies_deliveries_in_send_order() {
    let mut store: Assets<String> = Assets::default();
    let channel: AssetChannel<String> = AssetChannel::new();
    let sender = channel.sender.clone();
    let handle = Handle::from_id(5);

    sender.send((handle.id(), String::from("first"))).unwrap();
    sender.send((handle.id(), String::from("second"))).unwrap();
    update_asset_storage_system(&channel, &mut store);

    assert_eq!(store.get(&handle), Some(&String::from("second")));
}

#[test]
fn dispatch_of_an_empty_channel_changes_nothing() {
    let mut store: Assets<String> = Assets::default();
    let channel: AssetChannel<String> = AssetChannel::new();
    store.set(Handle::from_id(1), String::from("kept"));

    update_asset_storage_system(&channel, &mut store);

    assert_eq!(store.get(&Handle::from_id(1)), Some(&String::from("kept")));
    let mut stream: Events<AssetEvent<String>> = Events::new();
    Assets::asset_event_system(&mut stream, &mut store);
    assert_eq!(stream.drain().len(), 1);
}

#[test]
fn loader_decodes_bytes_and_reports_errors() {
    let loader = TextLoader;
    match loader.from_bytes(b"hello") {
        Ok(text) => assert_eq!(text, "hello"),
        Err(_) => panic!("plain ascii must decode"),
    }

    let broken = loader.from_bytes(&[0xff, 0xfe]);
    match broken {
        Err(error) => assert_eq!(error.message, "not valid utf-8"),
        Ok(_) => panic!("invalid utf-8 must not decode"),
    }
}

#[test]
fn duplicate_registration_is_a_configuration_error() {
    let mut registry: LoaderRegistry<TextLoader> = LoaderRegistry::new();
    const TEXT: u64 = 7;

    assert!(registry.register(TEXT, TextLoader).is_ok());
    assert!(registry.is_registered(TEXT));

    let second = registry.register(TEXT, TextLoader);
    match second {
        Err(RegistrationError::DuplicateLoader { content_type }) => {
            assert_eq!(content_type, TEXT);
        }
        Ok(()) => panic!("a second loader for one content type must be refused"),
    }

    // No partial state: the first binding is still the one registered.
    assert!(registry.is_registered(TEXT));
    assert!(registry.get(TEXT).is_some());
    assert!(registry.get(8).is_none());
    assert!(!registry.is_registered(8));
}
