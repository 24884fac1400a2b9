use tesla::config::{Config, Token};
use tesla::error::TeslaError;
use tesla::vehicle::{
    choose_vehicle, find_vehicle_by_name, response_is_ok, TeslaClient, VehicleRequest,
    VehicleSummary,
};

fn car(id: u64, name: &str, state: &str) -> VehicleSummary {
    VehicleSummary { id, display_name: name.to_string(), state: state.to_string() }
}

fn cars() -> Vec<VehicleSummary> {
    vec![car(11, "Red", "online"), car(22, "Blue Élan", "asleep"), car(33, "RED", "offline")]
}

fn config() -> Config {
    Config::initial(Token {
        access_token: "a".to_string(),
        refresh_token: "r".to_string(),
        expires_ts: 9,
    })
}

#[test]
fn vehicle_is_found_without_regard_to_case() {
    assert_eq!(find_vehicle_by_name(&cars(), "red"), Some(0));
    assert_eq!(find_vehicle_by_name(&cars(), "RED"), Some(0));
    assert_eq!(find_vehicle_by_name(&cars(), "blue élan"), Some(1));
    assert_eq!(find_vehicle_by_name(&cars(), "BLUE ÉLAN"), Some(1));
    assert_eq!(find_vehicle_by_name(&cars(), "green"), None);
    assert_eq!(find_vehicle_by_name(&cars(), "re"), None);
    assert_eq!(find_vehicle_by_name(&vec![], "red"), None);
}

#[test]
fn chosen_vehicle_becomes_the_default() {
    let mut c = config();
    assert_eq!(choose_vehicle(&mut c, &cars(), 2), Ok("Blue Élan".to_string()));
    assert_eq!(c.global.default_vehicle_id, Some(22));
    assert_eq!(c.global.default_vehicle.as_deref(), Some("Blue Élan"));
    assert_eq!(c.global.logspec.as_deref(), Some("info"));
    assert_eq!(c.token, config().token);
    assert_eq!(choose_vehicle(&mut c, &cars(), 1), Ok("Red".to_string()));
    assert_eq!(c.global.default_vehicle_id, Some(11));
    assert_eq!(choose_vehicle(&mut c, &cars(), 3), Ok("RED".to_string()));
    assert_eq!(c.global.default_vehicle_id, Some(33));
}

#[test]
fn choice_outside_the_list_is_a_system_error() {
    let mut c = config();
    assert_eq!(choose_vehicle(&mut c, &cars(), 0), Err(TeslaError::SystemError));
    assert_eq!(choose_vehicle(&mut c, &cars(), 4), Err(TeslaError::SystemError));
    assert_eq!(choose_vehicle(&mut c, &vec![], 1), Err(TeslaError::SystemError));
    assert_eq!(choose_vehicle(&mut c, &cars(), usize::MAX), Err(TeslaError::SystemError));
    assert_eq!(c, config());
}

#[test]
fn client_of_the_service() {
    let client = TeslaClient::default("tok");
    assert_eq!(client.api_root, "https://owner-api.teslamotors.com/api/1/");
    assert_eq!(client.access_token, "tok");
    assert_eq!(client.authorization(), "Bearer tok");
    assert_eq!(
        client.vehicles_url().as_deref(),
        Some("https://owner-api.teslamotors.com/api/1/vehicles")
    );
    let debug = TeslaClient::new("http://localhost:4321/api/1/", "");
    assert_eq!(debug.authorization(), "Bearer ");
    assert_eq!(debug.vehicles_url().as_deref(), Some("http://localhost:4321/api/1/vehicles"));
}

#[test]
fn vehicle_addresses() {
    let v = TeslaClient::default("tok").vehicle(1234567890123);
    assert_eq!(v.vehicle_id, 1234567890123);
    assert_eq!(v.tesla_client, TeslaClient::default("tok"));
    assert_eq!(
        v.get_base_url().as_deref(),
        Some("https://owner-api.teslamotors.com/api/1/vehicles/1234567890123/")
    );
    assert_eq!(
        v.get_command_url("honk_horn").as_deref(),
        Some("https://owner-api.teslamotors.com/api/1/vehicles/1234567890123/command/honk_horn")
    );
    assert_eq!(
        v.get_endpoint_url("vehicle_data").as_deref(),
        Some("https://owner-api.teslamotors.com/api/1/vehicles/1234567890123/vehicle_data")
    );
}

#[test]
fn request_addresses() {
    let v = TeslaClient::new("http://localhost:4321/api/1/", "t").vehicle(7);
    let base = "http://localhost:4321/api/1/vehicles/7/";
    let cases = [
        (VehicleRequest::WakeUp, "wake_up", true),
        (VehicleRequest::FlashLights, "command/flash_lights", true),
        (VehicleRequest::DoorUnlock, "command/door_unlock", true),
        (VehicleRequest::DoorLock, "command/door_lock", true),
        (VehicleRequest::HonkHorn, "command/honk_horn", true),
        (VehicleRequest::AutoConditioningStart, "command/auto_conditioning_start", true),
        (VehicleRequest::AutoConditioningStop, "command/auto_conditioning_stop", true),
        (VehicleRequest::RemoteStartDrive, "command/remote_start_drive", true),
        (VehicleRequest::ChargePortDoorOpen, "command/charge_port_door_open", true),
        (VehicleRequest::ChargePortDoorClose, "command/charge_port_door_close", true),
        (VehicleRequest::Get, "", false),
        (VehicleRequest::GetAllData, "vehicle_data", false),
        (VehicleRequest::GetSoc, "data_request/charge_state", false),
        (VehicleRequest::GetGuiSettings, "data_request/gui_settings", false),
    ];
    for (request, tail, post) in cases {
        assert_eq!(v.request_url(request), Some(format!("{}{}", base, tail)));
        assert_eq!(request.is_post(), post);
    }
}

#[test]
fn addresses_of_a_bad_root_are_none() {
    let v = TeslaClient::new("not a url", "t").vehicle(7);
    assert_eq!(v.get_base_url(), None);
    assert_eq!(v.get_command_url("honk_horn"), None);
    assert_eq!(v.get_endpoint_url("vehicle_data"), None);
    assert_eq!(v.request_url(VehicleRequest::Get), None);
    assert_eq!(TeslaClient::new("", "t").vehicles_url(), None);
}

#[test]
fn only_200_is_ok() {
    assert!(response_is_ok(200));
    assert!(!response_is_ok(201));
    assert!(!response_is_ok(204));
    assert!(!response_is_ok(404));
}
