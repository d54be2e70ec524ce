use webui::http::dispatch;
use webui::http::handle_request;
use webui::http::respond;
use webui::http::root;
use webui::http::server_list;
use webui::http::Route;
use webui::http::WebuiError;
use webui::model::sample_servers;
use webui::model::IpAddress;
use webui::model::Server;
use webui::model::ServerStatus;
use webui::render::format_ip;
use webui::render::render_entry;
use webui::render::status_str;
use webui::render::u16_to_hex;
use webui::render::u8_to_dec;
use webui::render::RootPage;
use webui::render::ServerListPage;

const ROOT_PAGE: &str = "<!DOCTYPE html><html><head><title>Web UI</title></head><body><h1>Welcome to the server status page!</h1></body></html>";

const SERVERS_PAGE: &str = "<!DOCTYPE html><html><head><title>Server Status</title></head><body><h1>Server Status</h1><ul><li>Server 1 (127.0.0.1, Available)</li><li>Server 2 (127.0.0.2, Busy)</li><li>(unnamed) (127.0.0.3, Offline)</li></ul></body></html>";

#[test]
fn root_greets() {
    let r = root().unwrap();
    assert!(!r.is_empty());
    assert!(r.contains("Welcome to the server status page!"));
    assert_eq!(r, ROOT_PAGE);
}

#[test]
fn handle_root_is_200() {
    let r = handle_request("GET", "/");
    assert_eq!(r.status, 200);
    assert_eq!(r.body, ROOT_PAGE);
}

#[test]
fn servers_page_lists_three_entries_in_order() {
    let r = handle_request("GET", "/servers");
    assert_eq!(r.status, 200);
    assert_eq!(r.body, SERVERS_PAGE);
    assert_eq!(r.body.matches("<li>").count(), 3);
    assert_eq!(r.body.matches("</li>").count(), 3);
    let first = r.body.find("Server 1 (127.0.0.1, Available)").unwrap();
    let second = r.body.find("Server 2 (127.0.0.2, Busy)").unwrap();
    let third = r.body.find("(unnamed) (127.0.0.3, Offline)").unwrap();
    assert!(first < second && second < third);
}

#[test]
fn server_list_handler_succeeds() {
    let b = server_list().unwrap();
    assert_eq!(b, SERVERS_PAGE);
}

#[test]
fn unmatched_path_is_404() {
    let r = handle_request("GET", "/nonexistent");
    assert_eq!(r.status, 404);
    assert_eq!(r.body, "Page not found");
}

#[test]
fn unmatched_method_is_404() {
    let r = handle_request("POST", "/");
    assert_eq!(r.status, 404);
    let r = handle_request("PUT", "/servers");
    assert_eq!(r.status, 404);
}

#[test]
fn render_error_maps_to_500() {
    let e = WebuiError::RenderError("invalid template".to_string());
    let r = e.into_response();
    assert_eq!(r.status, 500);
    assert!(r.body.contains("Failed to render template"));
    assert_eq!(r.body, "Failed to render template: invalid template");
}

#[test]
fn not_found_error_maps_to_404() {
    let r = WebuiError::NotFound.into_response();
    assert_eq!(r.status, 404);
    assert_eq!(r.body, "Page not found");
}

#[test]
fn respond_wraps_success_and_failure() {
    let ok = respond(Ok("<p>hi</p>".to_string()));
    assert_eq!(ok.status, 200);
    assert_eq!(ok.body, "<p>hi</p>");
    let err = respond(Err(WebuiError::RenderError("boom".to_string())));
    assert_eq!(err.status, 500);
    assert_eq!(err.body, "Failed to render template: boom");
}

#[test]
fn statuses_stay_in_range() {
    let requests = [
        ("GET", "/"),
        ("GET", "/servers"),
        ("GET", "/nonexistent"),
        ("POST", "/servers"),
        ("", ""),
    ];
    for (method, path) in requests {
        let r = handle_request(method, path);
        assert!(r.status == 200 || r.status == 404 || r.status == 500);
    }
    let e = WebuiError::RenderError("x".to_string()).into_response();
    assert!(e.status == 200 || e.status == 404 || e.status == 500);
}

#[test]
fn repeated_requests_are_identical() {
    let a = handle_request("GET", "/servers");
    let b = handle_request("GET", "/servers");
    assert_eq!(a.status, b.status);
    assert_eq!(a.body, b.body);
    let a = handle_request("GET", "/");
    let b = handle_request("GET", "/");
    assert_eq!(a.body, b.body);
}

#[test]
fn dispatch_follows_route_table() {
    assert_eq!(dispatch("GET", "/"), Some(Route::Root));
    assert_eq!(dispatch("GET", "/servers"), Some(Route::Servers));
    assert_eq!(dispatch("GET", "/server"), None);
    assert_eq!(dispatch("POST", "/"), None);
    assert_eq!(dispatch("get", "/"), None);
}

#[test]
fn sample_data_is_fixed() {
    let ss = sample_servers();
    assert_eq!(ss.len(), 3);
    assert_eq!(ss[0].name.as_deref(), Some("Server 1"));
    assert_eq!(format_ip(&ss[0].ip), "127.0.0.1");
    assert_eq!(ss[0].status, ServerStatus::Available);
    assert_eq!(ss[1].name.as_deref(), Some("Server 2"));
    assert_eq!(format_ip(&ss[1].ip), "127.0.0.2");
    assert_eq!(ss[1].status, ServerStatus::Busy);
    assert_eq!(ss[2].name, None);
    assert_eq!(format_ip(&ss[2].ip), "127.0.0.3");
    assert_eq!(ss[2].status, ServerStatus::Offline);
}

#[test]
fn decimal_text_of_bytes() {
    assert_eq!(u8_to_dec(0), "0");
    assert_eq!(u8_to_dec(7), "7");
    assert_eq!(u8_to_dec(10), "10");
    assert_eq!(u8_to_dec(99), "99");
    assert_eq!(u8_to_dec(100), "100");
    assert_eq!(u8_to_dec(127), "127");
    assert_eq!(u8_to_dec(255), "255");
}

#[test]
fn hexadecimal_text_of_groups() {
    assert_eq!(u16_to_hex(0), "0");
    assert_eq!(u16_to_hex(1), "1");
    assert_eq!(u16_to_hex(15), "f");
    assert_eq!(u16_to_hex(16), "10");
    assert_eq!(u16_to_hex(0x2001), "2001");
    assert_eq!(u16_to_hex(0x0db8), "db8");
    assert_eq!(u16_to_hex(0xffff), "ffff");
}

#[test]
fn ip_addresses_format() {
    assert_eq!(format_ip(&IpAddress::V4 { a: 10, b: 0, c: 0, d: 5 }), "10.0.0.5");
    assert_eq!(format_ip(&IpAddress::V4 { a: 255, b: 255, c: 255, d: 255 }), "255.255.255.255");
    let v6 = IpAddress::V6 {
        g0: 0x2001,
        g1: 0x0db8,
        g2: 0,
        g3: 0,
        g4: 0,
        g5: 0,
        g6: 0,
        g7: 1,
    };
    assert_eq!(format_ip(&v6), "2001:db8:0:0:0:0:0:1");
}

#[test]
fn status_labels() {
    assert_eq!(status_str(&ServerStatus::Available), "Available");
    assert_eq!(status_str(&ServerStatus::Busy), "Busy");
    assert_eq!(status_str(&ServerStatus::Offline), "Offline");
}

#[test]
fn entry_for_unnamed_server() {
    let s = Server {
        name: None,
        ip: IpAddress::V4 { a: 10, b: 0, c: 0, d: 5 },
        status: ServerStatus::Offline,
    };
    assert_eq!(render_entry(&s), "<li>(unnamed) (10.0.0.5, Offline)</li>");
}

#[test]
fn page_view_models_render() {
    assert_eq!(RootPage.render(), ROOT_PAGE);
    let page = ServerListPage { servers: sample_servers() };
    assert_eq!(page.render(), SERVERS_PAGE);
    let empty = ServerListPage { servers: Vec::new() };
    assert_eq!(
        empty.render(),
        "<!DOCTYPE html><html><head><title>Server Status</title></head><body><h1>Server Status</h1><ul></ul></body></html>"
    );
}

#[test]
fn error_messages() {
    assert_eq!(WebuiError::NotFound.message(), "Page not found");
    assert_eq!(
        WebuiError::RenderError(String::new()).message(),
        "Failed to render template: "
    );
}
