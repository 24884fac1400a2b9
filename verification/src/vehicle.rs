//! Vehicles: how one is picked from the account's list, and the addresses
//! of the requests that concern it.

use vstd::prelude::*;
use vstd::string::StringExecFns;
use crate::config::Config;
use crate::error::{ErrorModel, TeslaError};
use crate::text::{decimal_text, lowercase, lowercase_text, push_decimal, same_text};
use crate::web::{url_join, url_joined_text};

verus! {

/// What the account's list says of one vehicle.
#[derive(Debug, Clone, PartialEq, Eq)]
pub struct VehicleSummary {
    pub id: u64,
    pub display_name: String,
    /// The connectivity state, such as `online` or `asleep`.
    pub state: String,
}

/// Whether two names are the same but for the case of their letters.
pub open spec fn same_name(a: Seq<char>, b: Seq<char>) -> bool {
    lowercase_text(a) == lowercase_text(b)
}

/// Finds a vehicle by its name, without regard to case: the position of
/// the first one in the list that bears it.
pub fn find_vehicle_by_name(vehicles: &Vec<VehicleSummary>, name: &str) -> (found: Option<usize>)
    ensures
        match found {
            Some(i) => i < vehicles@.len() && same_name(vehicles@[i as int].display_name@, name@)
                && forall|k: int|
                0 <= k < i ==> !same_name((#[trigger] vehicles@[k]).display_name@, name@),
            None => forall|k: int|
                0 <= k < vehicles@.len() ==> !same_name(
                    (#[trigger] vehicles@[k]).display_name@,
                    name@,
                ),
        },
{
    let wanted = lowercase(name);
    let mut i: usize = 0;
    while i < vehicles.len()
        invariant
            i <= vehicles@.len(),
            wanted@ == lowercase_text(name@),
            forall|k: int| 0 <= k < i ==> !same_name((#[trigger] vehicles@[k]).display_name@, name@),
        decreases vehicles@.len() - i,
    {
        let candidate = lowercase(vehicles[i].display_name.as_str());
        if same_text(candidate.as_str(), wanted.as_str()) {
            return Some(i);
        }
        i += 1;
    }
    None
}

/// Makes the vehicle that the user picked from the list the default. The
/// choice counts from one; a choice outside the list is refused and leaves
/// the settings as they were. The name of the chosen vehicle is returned.
pub fn choose_vehicle(config: &mut Config, vehicles: &Vec<VehicleSummary>, choice: usize) -> (name:
    Result<String, TeslaError>)
    ensures
        match name {
            Ok(n) => {
                &&& 1 <= choice <= vehicles@.len()
                &&& n@ == vehicles@[choice - 1].display_name@
                &&& final(config).global.default_vehicle_id == Some(vehicles@[choice - 1].id)
                &&& final(config).global.default_vehicle is Some
                &&& final(config).global.default_vehicle->0@ == vehicles@[choice
                    - 1].display_name@
                &&& final(config).global.logspec == old(config).global.logspec
                &&& final(config).token == old(config).token
                &&& final(config).influx == old(config).influx
                &&& final(config).sqlite == old(config).sqlite
                &&& final(config).mqtt == old(config).mqtt
            },
            Err(e) => (choice < 1 || choice > vehicles@.len()) && e@ == ErrorModel::SystemError
                && *final(config) == *old(config),
        },
{
    if choice > vehicles.len() || choice < 1 {
        return Err(TeslaError::SystemError);
    }
    let chosen = &vehicles[choice - 1];
    config.global.default_vehicle_id = Some(chosen.id);
    config.global.default_vehicle = Some(chosen.display_name.clone());
    Ok(chosen.display_name.clone())
}

/// The service's own root address.
pub open spec fn default_api_root() -> Seq<char> {
    "https://owner-api.teslamotors.com/api/1/"@
}

/// What identifies a client of the service: the root address of its
/// interface and the access token that is sent with every request.
#[derive(Debug, Clone, PartialEq, Eq)]
pub struct TeslaClient {
    pub api_root: String,
    pub access_token: String,
}

/// A client for one vehicle.
#[derive(Debug, Clone, PartialEq, Eq)]
pub struct VehicleClient {
    pub tesla_client: TeslaClient,
    pub vehicle_id: u64,
}

/// A request that concerns one vehicle.
#[derive(Debug, Clone, Copy, PartialEq, Eq, Structural)]
pub enum VehicleRequest {
    WakeUp,
    FlashLights,
    DoorUnlock,
    DoorLock,
    HonkHorn,
    AutoConditioningStart,
    AutoConditioningStop,
    RemoteStartDrive,
    ChargePortDoorOpen,
    ChargePortDoorClose,
    Get,
    GetAllData,
    GetSoc,
    GetGuiSettings,
}

/// How a request is addressed.
pub enum Route {
    /// The vehicle's own address.
    Base,
    /// An address below the vehicle's own.
    Below(Seq<char>),
    /// The address of a command.
    Command(Seq<char>),
}

impl VehicleRequest {
    /// Whether the request changes something and is therefore posted.
    pub open spec fn is_command(self) -> bool {
        !(self == VehicleRequest::Get || self == VehicleRequest::GetAllData || self
            == VehicleRequest::GetSoc || self == VehicleRequest::GetGuiSettings)
    }

    /// The address of the request, relative to the vehicle.
    pub open spec fn route(self) -> Route {
        match self {
            VehicleRequest::WakeUp => Route::Below("wake_up"@),
            VehicleRequest::FlashLights => Route::Command("flash_lights"@),
            VehicleRequest::DoorUnlock => Route::Command("door_unlock"@),
            VehicleRequest::DoorLock => Route::Command("door_lock"@),
            VehicleRequest::HonkHorn => Route::Command("honk_horn"@),
            VehicleRequest::AutoConditioningStart => Route::Command("auto_conditioning_start"@),
            VehicleRequest::AutoConditioningStop => Route::Command("auto_conditioning_stop"@),
            VehicleRequest::RemoteStartDrive => Route::Command("remote_start_drive"@),
            VehicleRequest::ChargePortDoorOpen => Route::Command("charge_port_door_open"@),
            VehicleRequest::ChargePortDoorClose => Route::Command("charge_port_door_close"@),
            VehicleRequest::Get => Route::Base,
            VehicleRequest::GetAllData => Route::Below("vehicle_data"@),
            VehicleRequest::GetSoc => Route::Below("data_request/charge_state"@),
            VehicleRequest::GetGuiSettings => Route::Below("data_request/gui_settings"@),
        }
    }

    /// Whether the request is posted; the others are fetched.
    pub fn is_post(self) -> (post: bool)
        ensures
            post == self.is_command(),
    {
        match self {
            VehicleRequest::Get
            | VehicleRequest::GetAllData
            | VehicleRequest::GetSoc
            | VehicleRequest::GetGuiSettings => false,
            _ => true,
        }
    }
}

/// The value of the header that authorizes a request.
pub open spec fn bearer_text(access_token: Seq<char>) -> Seq<char> {
    "Bearer "@ + access_token
}

/// The address of a vehicle, relative to the root.
pub open spec fn vehicle_path_text(vehicle_id: u64) -> Seq<char> {
    "vehicles/"@ + decimal_text(vehicle_id as nat) + "/"@
}

/// The address of a vehicle's command, relative to the root.
pub open spec fn command_path_text(vehicle_id: u64, command: Seq<char>) -> Seq<char> {
    "vehicles/"@ + decimal_text(vehicle_id as nat) + "/command/"@ + command
}

/// The address of a vehicle.
pub open spec fn base_url_text(api_root: Seq<char>, vehicle_id: u64) -> Option<Seq<char>> {
    url_joined_text(api_root, vehicle_path_text(vehicle_id))
}

/// The address of a vehicle's command.
pub open spec fn command_url_text(api_root: Seq<char>, vehicle_id: u64, command: Seq<char>)
    -> Option<Seq<char>> {
    url_joined_text(api_root, command_path_text(vehicle_id, command))
}

/// The address of something below a vehicle's own address.
pub open spec fn below_url_text(api_root: Seq<char>, vehicle_id: u64, endpoint: Seq<char>)
    -> Option<Seq<char>> {
    match base_url_text(api_root, vehicle_id) {
        Some(base) => url_joined_text(base, endpoint),
        None => None,
    }
}

/// The address of a request.
pub open spec fn request_url_text(api_root: Seq<char>, vehicle_id: u64, request: VehicleRequest)
    -> Option<Seq<char>> {
    match request.route() {
        Route::Base => base_url_text(api_root, vehicle_id),
        Route::Below(endpoint) => below_url_text(api_root, vehicle_id, endpoint),
        Route::Command(command) => command_url_text(api_root, vehicle_id, command),
    }
}

impl TeslaClient {
    /// A client of the service's own interface.
    pub fn default(access_token: &str) -> (client: TeslaClient)
        ensures
            client.api_root@ == default_api_root(),
            client.access_token@ == access_token@,
    {
        TeslaClient::new("https://owner-api.teslamotors.com/api/1/", access_token)
    }

    /// A client of the interface at `api_root`.
    pub fn new(api_root: &str, access_token: &str) -> (client: TeslaClient)
        ensures
            client.api_root@ == api_root@,
            client.access_token@ == access_token@,
    {
        TeslaClient { api_root: api_root.to_owned(), access_token: access_token.to_owned() }
    }

    /// A client for one of the account's vehicles.
    pub fn vehicle(&self, vehicle_id: u64) -> (client: VehicleClient)
        ensures
            client.vehicle_id == vehicle_id,
            client.tesla_client.api_root@ == self.api_root@,
            client.tesla_client.access_token@ == self.access_token@,
    {
        VehicleClient {
            tesla_client: TeslaClient {
                api_root: self.api_root.clone(),
                access_token: self.access_token.clone(),
            },
            vehicle_id,
        }
    }

    /// The value of the `Authorization` header that goes with every
    /// request.
    pub fn authorization(&self) -> (value: String)
        ensures
            value@ == bearer_text(self.access_token@),
    {
        let mut value = "Bearer ".to_owned();
        value.append(self.access_token.as_str());
        value
    }

    /// The address of the account's list of vehicles; `None` where the
    /// root is no absolute URL.
    pub fn vehicles_url(&self) -> (url: Option<String>)
        ensures
            url.deep_view() == url_joined_text(self.api_root@, "vehicles"@),
    {
        url_join(self.api_root.as_str(), "vehicles")
    }
}

impl VehicleClient {
    /// The address of the vehicle; `None` where the root is no absolute
    /// URL.
    pub fn get_base_url(&self) -> (url: Option<String>)
        ensures
            url.deep_view() == base_url_text(self.tesla_client.api_root@, self.vehicle_id),
    {
        let mut path = "vehicles/".to_owned();
        push_decimal(&mut path, self.vehicle_id);
        path.append("/");
        url_join(self.tesla_client.api_root.as_str(), path.as_str())
    }

    /// The address of a command; `None` where the root is no absolute URL.
    pub fn get_command_url(&self, command: &str) -> (url: Option<String>)
        ensures
            url.deep_view() == command_url_text(
                self.tesla_client.api_root@,
                self.vehicle_id,
                command@,
            ),
    {
        let mut path = "vehicles/".to_owned();
        push_decimal(&mut path, self.vehicle_id);
        path.append("/command/");
        path.append(command);
        url_join(self.tesla_client.api_root.as_str(), path.as_str())
    }

    /// The address of something below the vehicle's own; `None` where
    /// either does not parse.
    pub fn get_endpoint_url(&self, endpoint: &str) -> (url: Option<String>)
        ensures
            url.deep_view() == below_url_text(
                self.tesla_client.api_root@,
                self.vehicle_id,
                endpoint@,
            ),
    {
        match self.get_base_url() {
            Some(base) => url_join(base.as_str(), endpoint),
            None => None,
        }
    }

    /// The address to which a request goes.
    pub fn request_url(&self, request: VehicleRequest) -> (url: Option<String>)
        ensures
            url.deep_view() == request_url_text(
                self.tesla_client.api_root@,
                self.vehicle_id,
                request,
            ),
    {
        match request {
            VehicleRequest::WakeUp => self.get_endpoint_url("wake_up"),
            VehicleRequest::FlashLights => self.get_command_url("flash_lights"),
            VehicleRequest::DoorUnlock => self.get_command_url("door_unlock"),
            VehicleRequest::DoorLock => self.get_command_url("door_lock"),
            VehicleRequest::HonkHorn => self.get_command_url("honk_horn"),
            VehicleRequest::AutoConditioningStart => self.get_command_url(
                "auto_conditioning_start",
            ),
            VehicleRequest::AutoConditioningStop => self.get_command_url("auto_conditioning_stop"),
            VehicleRequest::RemoteStartDrive => self.get_command_url("remote_start_drive"),
            VehicleRequest::ChargePortDoorOpen => self.get_command_url("charge_port_door_open"),
            VehicleRequest::ChargePortDoorClose => self.get_command_url("charge_port_door_close"),
            VehicleRequest::Get => self.get_base_url(),
            VehicleRequest::GetAllData => self.get_endpoint_url("vehicle_data"),
            VehicleRequest::GetSoc => self.get_endpoint_url("data_request/charge_state"),
            VehicleRequest::GetGuiSettings => self.get_endpoint_url("data_request/gui_settings"),
        }
    }
}

/// Whether the service answered a request with the result that was asked
/// for: status 200 and no other.
pub fn response_is_ok(status: u16) -> (ok: bool)
    ensures
        ok == (status == 200),
{
    status == 200
}

} // verus!
