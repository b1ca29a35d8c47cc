use base64::Engine;
use static_inject::typemap::TypeMap;
use static_inject::Static;
use static_inject::StaticLayer;

#[derive(Clone, Copy, Debug, PartialEq)]
struct Data(&'static str);

#[test]
fn static_service() {
    let data: &'static Data = Box::leak(Box::new(Data("West")));
    let encoder: &'static base64::engine::GeneralPurpose =
        &base64::engine::general_purpose::STANDARD;

    let mut req: axum::http::Request<()> = axum::http::Request::new(());
    StaticLayer::new(data).layer(()).attach(&mut req);
    StaticLayer::new(encoder).layer(()).attach(&mut req);

    let (parts, _) = req.into_parts();
    let found_data = Static::<Data>::from_request_parts(&parts).expect("data was registered");
    let found_encoder = Static::<base64::engine::GeneralPurpose>::from_request_parts(&parts)
        .expect("encoder was registered");

    let res = found_encoder.get().encode(found_data.get().0);
    let decoded = encoder.decode(&res).expect("the response body decodes");
    assert_eq!("West", String::from_utf8(decoded).expect("the body is text"));
}

#[test]
fn registered_value_round_trips() {
    let data: &'static Data = Box::leak(Box::new(Data("North")));
    let mut req: axum::http::Request<()> = axum::http::Request::new(());
    StaticLayer::new(data).layer(()).attach(&mut req);
    let (parts, _) = req.into_parts();

    let found = Static::<Data>::from_request_parts(&parts).expect("data was registered");
    assert_eq!(Data("North"), *found.get());
}

#[test]
fn unregistered_type_is_misconfiguration() {
    let req: axum::http::Request<()> = axum::http::Request::new(());
    let (parts, _) = req.into_parts();

    let missing = Static::<Data>::from_request_parts(&parts).map(|handle| *handle.get());
    assert_eq!(Err((500, "Unknown error occurred!")), missing);
}

#[test]
fn resolve_missing_gives_opaque_error() {
    let resolved = static_inject::inject::resolve_static(None::<u32>);
    assert_eq!(Err((500, "Unknown error occurred!")), resolved);
    assert_eq!(Ok(7), static_inject::inject::resolve_static(Some(7u32)));
}

#[test]
fn same_type_later_layer_wins() {
    let first: &'static Data = Box::leak(Box::new(Data("old")));
    let second: &'static Data = Box::leak(Box::new(Data("new")));

    let mut req: axum::http::Request<()> = axum::http::Request::new(());
    StaticLayer::new(first).layer(()).attach(&mut req);
    StaticLayer::new(second).layer(()).attach(&mut req);
    let (parts, _) = req.into_parts();

    let found = Static::<Data>::from_request_parts(&parts).expect("data was registered");
    assert_eq!(Data("new"), *found.get());
}

#[test]
fn distinct_types_coexist() {
    let word: &'static Data = Box::leak(Box::new(Data("East")));
    let number: &'static u64 = Box::leak(Box::new(11u64));

    let mut req: axum::http::Request<()> = axum::http::Request::new(());
    StaticLayer::new(number).layer(()).attach(&mut req);
    StaticLayer::new(word).layer(()).attach(&mut req);
    let (parts, _) = req.into_parts();

    assert_eq!(
        Data("East"),
        *Static::<Data>::from_request_parts(&parts).expect("word registered").get()
    );
    assert_eq!(
        11,
        *Static::<u64>::from_request_parts(&parts).expect("number registered").get()
    );
}

#[test]
fn typemap_round_trip() {
    let mut map: TypeMap<i64> = TypeMap::new();
    map.insert(7, 42);
    assert_eq!(Some(&42), map.get(7));
    assert_eq!(None, map.get(8));
}

#[test]
fn typemap_last_registration_wins() {
    let mut map: TypeMap<&'static str> = TypeMap::new();
    map.insert(1, "first");
    map.insert(2, "other");
    map.insert(1, "second");
    assert_eq!(Some(&"second"), map.get(1));
    assert_eq!(Some(&"other"), map.get(2));
}

#[test]
fn layer_wraps_service_and_value() {
    let data: &'static Data = Box::leak(Box::new(Data("South")));
    let layer = StaticLayer::new(data);
    let stage = layer.layer("inner service");
    let mut req: axum::http::Request<()> = axum::http::Request::new(());
    stage.attach(&mut req);
    let (parts, _) = req.into_parts();
    assert_eq!(
        Data("South"),
        *Static::<Data>::from_request_parts(&parts).expect("registered").get()
    );
}

#[test]
fn handle_dereferences_to_original() {
    let data: &'static Data = Box::leak(Box::new(Data("Home")));
    let handle = Static::new(data);
    assert_eq!(Data("Home"), *handle.get());
    let copy = handle;
    assert_eq!(Data("Home"), *copy.get());
}
