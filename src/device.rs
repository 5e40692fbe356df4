//! Devices and the wire shapes of the device-list response.

use vstd::prelude::*;

verus! {

/// Identifier of a device or infrared remote; compared by its text.
#[derive(Debug, Clone, PartialEq, Eq, Hash)]
pub struct DeviceId(String);

impl View for DeviceId {
    type V = Seq<char>;

    closed spec fn view(&self) -> Seq<char> {
        self.0@
    }
}

impl DeviceId {
    pub fn new(value: String) -> (r: Self)
        ensures
            r@ == value@,
    {
        DeviceId(value)
    }

    pub fn value(&self) -> (r: String)
        ensures
            r@ == self@,
    {
        self.0.clone()
    }

    pub fn as_str(&self) -> (r: &str)
        ensures
            r@ == self@,
    {
        self.0.as_str()
    }
}

/// What a device is, as plain values.
pub ghost struct DeviceView {
    pub id: Seq<char>,
    pub name: Seq<char>,
    pub device_type: Seq<char>,
    pub is_infrared: bool,
    pub hub_device_id: Seq<char>,
}

/// A physical device or an infrared remote, as listed by the API.
#[derive(Debug, Clone)]
pub struct Device {
    pub id: DeviceId,
    pub name: String,
    pub device_type: String,
    pub is_infrared: bool,
    pub hub_device_id: String,
}

impl View for Device {
    type V = DeviceView;

    open spec fn view(&self) -> DeviceView {
        DeviceView {
            id: self.id@,
            name: self.name@,
            device_type: self.device_type@,
            is_infrared: self.is_infrared,
            hub_device_id: self.hub_device_id@,
        }
    }
}

/// An entry of the response's `deviceList`.
#[derive(Debug, Clone)]
pub struct DeviceDto {
    pub device_id: String,
    pub device_name: String,
    pub device_type: String,
    pub hub_device_id: String,
}

/// An entry of the response's `infraredRemoteList`.
#[derive(Debug, Clone)]
pub struct IrRemoteDto {
    pub device_id: String,
    pub device_name: String,
    pub remote_type: String,
    pub hub_device_id: String,
}

/// The `body` of a device-list response.
#[derive(Debug, Clone)]
pub struct DeviceListResponseBody {
    pub device_list: Vec<DeviceDto>,
    pub infrared_remote_list: Option<Vec<IrRemoteDto>>,
}

/// The envelope of every API response.
#[derive(Debug, Clone)]
pub struct ApiResponse<T> {
    pub status_code: i32,
    pub message: String,
    pub body: T,
}

pub type DeviceListResponse = ApiResponse<DeviceListResponseBody>;

/// The device that a `deviceList` entry describes.
pub open spec fn physical_view(d: DeviceDto) -> DeviceView {
    DeviceView {
        id: d.device_id@,
        name: d.device_name@,
        device_type: d.device_type@,
        is_infrared: false,
        hub_device_id: d.hub_device_id@,
    }
}

/// The device that an `infraredRemoteList` entry describes.
pub open spec fn infrared_view(d: IrRemoteDto) -> DeviceView {
    DeviceView {
        id: d.device_id@,
        name: d.device_name@,
        device_type: d.remote_type@,
        is_infrared: true,
        hub_device_id: d.hub_device_id@,
    }
}

/// The devices of a list response: the physical devices, then the infrared
/// remotes, each list in its own order.
pub open spec fn listed_devices(b: DeviceListResponseBody) -> Seq<DeviceView> {
    let physical = b.device_list@.map_values(|d: DeviceDto| physical_view(d));
    match b.infrared_remote_list {
        Some(l) => physical + l@.map_values(|d: IrRemoteDto| infrared_view(d)),
        None => physical,
    }
}

/// The folded list holds every physical device, in order and not marked
/// infrared, followed by every infrared remote, in order and marked.
pub proof fn lemma_listed_devices_order(b: DeviceListResponseBody)
    ensures
        ({
            let out = listed_devices(b);
            let n = b.device_list@.len();
            let m = match b.infrared_remote_list {
                Some(l) => l@.len(),
                None => 0,
            };
            &&& out.len() == n + m
            &&& forall|i: int|
                0 <= i < n ==> #[trigger] out[i] == physical_view(b.device_list@[i])
                    && !out[i].is_infrared
            &&& forall|i: int|
                n <= i < n + m ==> (#[trigger] out[i]).is_infrared && (b.infrared_remote_list matches Some(
                    l,
                ) && out[i] == infrared_view(l@[i - n]))
        }),
{
}

impl Device {
    pub fn from_device_dto(dto: &DeviceDto) -> (r: Self)
        ensures
            r@ == physical_view(*dto),
    {
        Device {
            id: DeviceId::new(dto.device_id.clone()),
            name: dto.device_name.clone(),
            device_type: dto.device_type.clone(),
            is_infrared: false,
            hub_device_id: dto.hub_device_id.clone(),
        }
    }

    pub fn from_ir_remote_dto(dto: &IrRemoteDto) -> (r: Self)
        ensures
            r@ == infrared_view(*dto),
    {
        Device {
            id: DeviceId::new(dto.device_id.clone()),
            name: dto.device_name.clone(),
            device_type: dto.remote_type.clone(),
            is_infrared: true,
            hub_device_id: dto.hub_device_id.clone(),
        }
    }
}

/// Folds both lists of a device-list response into one list of devices.
pub fn to_device_list(res: DeviceListResponse) -> (r: Vec<Device>)
    ensures
        r@.map_values(|d: Device| d@) == listed_devices(res.body),
{
    let ghost body = res.body;
    let mut devices: Vec<Device> = Vec::new();
    let physical = res.body.device_list;
    let n = physical.len();
    let mut i: usize = 0;
    while i < n
        invariant
            i <= n,
            n == physical@.len(),
            physical == body.device_list,
            devices@.len() == i,
            forall|j: int| 0 <= j < i ==> #[trigger] devices@[j]@ == physical_view(physical@[j]),
        decreases n - i,
    {
        devices.push(Device::from_device_dto(&physical[i]));
        i = i + 1;
    }
    assert(devices@.map_values(|d: Device| d@) =~= body.device_list@.map_values(
        |d: DeviceDto| physical_view(d),
    ));
    let ghost before = devices@;
    match res.body.infrared_remote_list {
        Some(remotes) => {
            let m = remotes.len();
            let mut k: usize = 0;
            while k < m
                invariant
                    k <= m,
                    m == remotes@.len(),
                    body.infrared_remote_list == Some(remotes),
                    devices@.len() == n + k,
                    n == before.len(),
                    n == body.device_list@.len(),
                    forall|j: int| 0 <= j < n ==> #[trigger] before[j]@ == physical_view(body.device_list@[j]),
                    forall|j: int| 0 <= j < n ==> #[trigger] devices@[j] == before[j],
                    forall|j: int|
                        0 <= j < k ==> #[trigger] devices@[n + j]@ == infrared_view(remotes@[j]),
                decreases m - k,
            {
                devices.push(Device::from_ir_remote_dto(&remotes[k]));
                k = k + 1;
            }
            assert forall|j: int| 0 <= j < n + m implies #[trigger] devices@[j]@ == listed_devices(body)[j] by {
                if j >= n {
                    assert(devices@[n + (j - n)]@ == infrared_view(remotes@[j - n]));
                }
            }
            assert(devices@.map_values(|d: Device| d@) =~= listed_devices(body));
        },
        None => {},
    }
    devices
}

} // verus!
