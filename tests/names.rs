use veeox::{Api, Middleware, Request, Response, Route, Server, Str};

#[test]
fn api_name_is_fixed() {
    assert_eq!(Api::name(), "veeox-api::Api");
}

#[test]
fn str_name_is_fixed() {
    assert_eq!(Str::name(), "veeox-string::Str");
}

#[test]
fn request_name_is_fixed() {
    assert_eq!(Request::name(), "veeox::Request");
}

#[test]
fn response_name_is_fixed() {
    assert_eq!(Response::name(), "veeox::Response");
}

#[test]
fn middleware_name_is_fixed() {
    assert_eq!(Middleware::name(), "veeox::Middleware");
}

#[test]
fn route_name_is_fixed() {
    assert_eq!(Route::name(), "veeox::Route");
}

#[test]
fn server_name_is_fixed() {
    assert_eq!(Server::name(), "veeox::Server");
}

#[test]
fn names_repeat_identically() {
    for _ in 0..3 {
        assert_eq!(Api::name(), Api::name());
        assert_eq!(Str::name(), Str::name());
        assert_eq!(Request::name(), Request::name());
        assert_eq!(Response::name(), Response::name());
        assert_eq!(Middleware::name(), Middleware::name());
        assert_eq!(Route::name(), Route::name());
        assert_eq!(Server::name(), Server::name());
    }
}

#[test]
fn names_are_distinct() {
    let all = vec![
        Api::name(),
        Str::name(),
        Request::name(),
        Response::name(),
        Middleware::name(),
        Route::name(),
        Server::name(),
    ];
    for i in 0..all.len() {
        for j in (i + 1)..all.len() {
            assert_ne!(all[i], all[j]);
        }
    }
}
