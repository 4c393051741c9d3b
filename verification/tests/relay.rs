use bitfun::relay::{
    choose_served_file, health_response, join_room_reply, message_direction, mime_for_extension,
    mime_from_path, relay_message_status, require_room, room_web_request, room_web_target, server_info,
    split_room_path, upload_reply, upload_step, AckRequest, HttpStatus, MessageDirection, PeerInfo, PollQuery,
};

#[test]
fn mime_types_by_extension() {
    assert_eq!(mime_from_path("/srv/web/r1/index.html"), "text/html; charset=utf-8");
    assert_eq!(mime_from_path("assets/app.js"), "application/javascript; charset=utf-8");
    assert_eq!(mime_from_path("a.css"), "text/css; charset=utf-8");
    assert_eq!(mime_from_path("m.json"), "application/json");
    assert_eq!(mime_from_path("i.png"), "image/png");
    assert_eq!(mime_from_path("i.svg"), "image/svg+xml");
    assert_eq!(mime_from_path("favicon.ico"), "image/x-icon");
    assert_eq!(mime_from_path("f.woff2"), "font/woff2");
    assert_eq!(mime_from_path("f.woff"), "font/woff");
    assert_eq!(mime_from_path("f.ttf"), "font/ttf");
    assert_eq!(mime_from_path("m.wasm"), "application/wasm");
    assert_eq!(mime_from_path("archive.tar.gz"), "application/octet-stream");
    assert_eq!(mime_from_path("README"), "application/octet-stream");
    assert_eq!(mime_from_path(".html"), "application/octet-stream");
    assert_eq!(mime_from_path("page.HTML"), "application/octet-stream");
    assert_eq!(mime_for_extension(None), "application/octet-stream");
    assert_eq!(mime_from_path("a/index.html"), "text/html; charset=utf-8");
    assert_eq!(mime_from_path("/srv/web/room-1/assets/.hidden"), "application/octet-stream");
    assert_eq!(mime_from_path("web/r/app.min.js"), "application/javascript; charset=utf-8");
    assert_eq!(mime_from_path("dir.css/readme"), "application/octet-stream");
    assert_eq!(mime_for_extension(Some("svg")), "image/svg+xml");
}

#[test]
fn room_paths_split_at_the_first_slash() {
    assert_eq!(split_room_path("room1/assets/app.js"), ("room1".to_string(), "assets/app.js".to_string()));
    assert_eq!(split_room_path("//room1/x"), ("room1".to_string(), "x".to_string()));
    assert_eq!(split_room_path("room1"), ("room1".to_string(), String::new()));
    assert_eq!(split_room_path("room1/"), ("room1".to_string(), String::new()));
    assert_eq!(split_room_path("///"), (String::new(), String::new()));
    assert_eq!(split_room_path(""), (String::new(), String::new()));
}

#[test]
fn served_file_falls_back_to_index() {
    assert_eq!(room_web_target(""), "index.html");
    assert_eq!(room_web_target("a/b.js"), "a/b.js");
    assert_eq!(choose_served_file("a/b.js", true, true, true), Ok("a/b.js".to_string()));
    assert_eq!(choose_served_file("", true, true, true), Ok("index.html".to_string()));
    assert_eq!(choose_served_file("route/x", true, false, true), Ok("index.html".to_string()));
    assert_eq!(choose_served_file("route/x", true, false, false), Err(HttpStatus::NotFound));
    assert_eq!(choose_served_file("a/b.js", false, true, true), Err(HttpStatus::NotFound));
    assert_eq!(room_web_request("r1/a.js"), Ok(("r1".to_string(), "a.js".to_string())));
    assert_eq!(room_web_request("/r1"), Ok(("r1".to_string(), String::new())));
    assert_eq!(room_web_request("//"), Err(HttpStatus::NotFound));
    assert_eq!(room_web_request("/x"), Ok(("x".to_string(), String::new())));
}

#[test]
fn directions_and_peer_device_types() {
    assert_eq!(message_direction(&Some("desktop".to_string())), MessageDirection::ToDesktop);
    assert_eq!(message_direction(&Some("mobile".to_string())), MessageDirection::ToMobile);
    assert_eq!(message_direction(&Some("Desktop".to_string())), MessageDirection::ToMobile);
    assert_eq!(message_direction(&None), MessageDirection::ToMobile);
    let q = PollQuery { since_seq: None, device_type: None };
    assert_eq!(q.since(), 0);
    assert_eq!(q.peer_device_type(), "mobile");
    assert_eq!(q.direction(), MessageDirection::ToMobile);
    let q = PollQuery { since_seq: Some(42), device_type: Some("desktop".to_string()) };
    assert_eq!(q.since(), 42);
    assert_eq!(q.peer_device_type(), "desktop");
    assert_eq!(q.direction(), MessageDirection::ToDesktop);
    let ack = AckRequest { ack_seq: 3, device_type: Some("desktop".to_string()) };
    assert_eq!(ack.direction(), MessageDirection::ToDesktop);
}

#[test]
fn relay_statuses() {
    assert_eq!(relay_message_status(false, false), HttpStatus::Unauthorized);
    assert_eq!(relay_message_status(false, true), HttpStatus::Unauthorized);
    assert_eq!(relay_message_status(true, true), HttpStatus::Success);
    assert_eq!(relay_message_status(true, false), HttpStatus::NotFound);
    assert_eq!(HttpStatus::Success.code(), 200);
    assert_eq!(HttpStatus::BadRequest.code(), 400);
    assert_eq!(HttpStatus::Unauthorized.code(), 401);
    assert_eq!(HttpStatus::NotFound.code(), 404);
    assert_eq!(HttpStatus::InternalServerError.code(), 500);
}

#[test]
fn join_replies() {
    let peer = PeerInfo { device_id: "d1".into(), device_type: "desktop".into(), public_key: "pk".into() };
    let reply = join_room_reply(true, Some(peer)).ok().unwrap();
    assert_eq!(reply.status, "joined");
    assert_eq!(reply.peer.unwrap().device_id, "d1");
    let reply = join_room_reply(true, None).ok().unwrap();
    assert!(reply.peer.is_none());
    assert_eq!(join_room_reply(false, None).err(), Some(HttpStatus::BadRequest));
}

#[test]
fn health_and_info() {
    let h = health_response("1.2.3".to_string(), 10, 2, 3);
    assert_eq!(h.status, "healthy");
    assert_eq!((h.uptime_seconds, h.rooms, h.connections), (10, 2, 3));
    let info = server_info("1.2.3".to_string());
    assert_eq!(info.name, "BitFun Relay Server");
    assert_eq!(info.protocol_version, 1);
    assert_eq!(info.version, "1.2.3");
}

#[test]
fn upload_steps() {
    assert_eq!(require_room(true), Ok(()));
    assert_eq!(require_room(false), Err(HttpStatus::NotFound));
    assert_eq!(upload_step("index.html", "aGVsbG8="), Ok(Some(b"hello".to_vec())));
    assert_eq!(upload_step("../etc/passwd", "aGVsbG8="), Ok(None));
    assert_eq!(upload_step("a..b", "!!!"), Ok(None));
    assert_eq!(upload_step("index.html", "not base64!"), Err(HttpStatus::BadRequest));
    assert_eq!(upload_step("empty.txt", ""), Ok(Some(Vec::new())));
    let r = upload_reply(3);
    assert_eq!((r.status.as_str(), r.files_written), ("ok", 3));
}
