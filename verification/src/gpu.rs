//! What the GPU miners have in common.
use crate::text::same_text;
use vstd::prelude::*;
use vstd::string::*;

verus! {

/// The algorithm that a GPU miner works on.
#[derive(Debug, Clone, Copy, PartialEq, Eq, Structural)]
pub enum GpuMinerAlgorithm {
    C29,
}

/// The GPU miners that can be selected.
#[derive(Debug, Clone, Copy, PartialEq, Eq, Structural)]
pub enum GpuMinerType {
    LolMiner,
    TariMiner,
}

impl Default for GpuMinerType {
    fn default() -> (miner: Self)
        ensures
            miner == GpuMinerType::LolMiner,
    {
        GpuMinerType::LolMiner
    }
}

impl GpuMinerType {
    /// The name by which a miner is stored.
    pub open spec fn spec_name(self) -> Seq<char> {
        match self {
            GpuMinerType::LolMiner => "LolMiner"@,
            GpuMinerType::TariMiner => "TariMiner"@,
        }
    }

    /// The miner of a stored name.
    pub open spec fn spec_from_name(name: Seq<char>) -> Option<GpuMinerType> {
        if name == GpuMinerType::LolMiner.spec_name() {
            Some(GpuMinerType::LolMiner)
        } else if name == GpuMinerType::TariMiner.spec_name() {
            Some(GpuMinerType::TariMiner)
        } else {
            None
        }
    }

    /// The name by which a miner is stored.
    pub fn name(self) -> (name: &'static str)
        ensures
            name@ == self.spec_name(),
    {
        match self {
            GpuMinerType::LolMiner => "LolMiner",
            GpuMinerType::TariMiner => "TariMiner",
        }
    }

    /// The miner of that name, if it still exists.
    pub fn from_name(name: &str) -> (miner: Option<GpuMinerType>)
        ensures
            miner == GpuMinerType::spec_from_name(name@),
    {
        if same_text(name, GpuMinerType::LolMiner.name()) {
            Some(GpuMinerType::LolMiner)
        } else if same_text(name, GpuMinerType::TariMiner.name()) {
            Some(GpuMinerType::TariMiner)
        } else {
            None
        }
    }

    /// The algorithm that a miner works on.
    pub fn main_algorithm(self) -> (algorithm: GpuMinerAlgorithm)
        ensures
            algorithm == GpuMinerAlgorithm::C29,
    {
        GpuMinerAlgorithm::C29
    }
}

/// A miner is found again by the name that it is stored under.
pub proof fn law_miner_is_found_by_its_name(miner: GpuMinerType)
    ensures
        GpuMinerType::spec_from_name(miner.spec_name()) == Some(miner),
{
    reveal_strlit("LolMiner");
    reveal_strlit("TariMiner");
    assert("LolMiner"@.len() != "TariMiner"@.len());
}

/// A device as its miner enumerated it.
#[derive(Debug, PartialEq, Eq)]
pub struct GpuCommonInformation {
    pub name: String,
    pub device_id: u32,
}

/// The contents of a [`GpuCommonInformation`].
pub ghost struct GpuCommonInformationView {
    pub name: Seq<char>,
    pub device_id: u32,
}

impl View for GpuCommonInformation {
    type V = GpuCommonInformationView;

    open spec fn view(&self) -> GpuCommonInformationView {
        GpuCommonInformationView { name: self.name@, device_id: self.device_id }
    }
}

impl Clone for GpuCommonInformation {
    fn clone(&self) -> (copy: Self)
        ensures
            copy == *self,
    {
        GpuCommonInformation { name: self.name.clone(), device_id: self.device_id }
    }
}

/// Where a miner gets its work from.
#[derive(Debug, PartialEq, Eq)]
pub enum GpuConnectionType {
    Node { node_grpc_address: String },
    Pool { pool_url: String },
}

/// The contents of a [`GpuConnectionType`].
pub ghost enum GpuConnectionTypeView {
    Node { node_grpc_address: Seq<char> },
    Pool { pool_url: Seq<char> },
}

impl View for GpuConnectionType {
    type V = GpuConnectionTypeView;

    open spec fn view(&self) -> GpuConnectionTypeView {
        match self {
            GpuConnectionType::Node { node_grpc_address } => GpuConnectionTypeView::Node {
                node_grpc_address: node_grpc_address@,
            },
            GpuConnectionType::Pool { pool_url } => GpuConnectionTypeView::Pool {
                pool_url: pool_url@,
            },
        }
    }
}

/// What a GPU miner is doing. The hash rate is a decimal number.
#[derive(Debug, PartialEq, Eq)]
pub struct GpuMinerStatus {
    pub is_mining: bool,
    pub hash_rate: String,
    pub estimated_earnings: u64,
    pub algorithm: GpuMinerAlgorithm,
}

/// The contents of a [`GpuMinerStatus`].
pub ghost struct GpuMinerStatusView {
    pub is_mining: bool,
    pub hash_rate: Seq<char>,
    pub estimated_earnings: u64,
    pub algorithm: GpuMinerAlgorithm,
}

impl View for GpuMinerStatus {
    type V = GpuMinerStatusView;

    open spec fn view(&self) -> GpuMinerStatusView {
        GpuMinerStatusView {
            is_mining: self.is_mining,
            hash_rate: self.hash_rate@,
            estimated_earnings: self.estimated_earnings,
            algorithm: self.algorithm,
        }
    }
}

impl GpuMinerStatus {
    /// The status of a miner that is not mining.
    pub open spec fn idle(algorithm: GpuMinerAlgorithm) -> GpuMinerStatusView {
        GpuMinerStatusView {
            is_mining: false,
            hash_rate: "0"@,
            estimated_earnings: 0,
            algorithm,
        }
    }

    /// The status of a miner that is not mining.
    pub fn default_with_algorithm(algorithm: GpuMinerAlgorithm) -> (status: GpuMinerStatus)
        ensures
            status@ == GpuMinerStatus::idle(algorithm),
    {
        GpuMinerStatus {
            is_mining: false,
            hash_rate: "0".to_string(),
            estimated_earnings: 0,
            algorithm,
        }
    }
}

/// Why a miner cannot be started or its devices cannot be listed.
#[derive(Debug, PartialEq, Eq)]
pub enum MiningError {
    /// No device has a backend.
    NoCompatibleDevices,
    /// There are devices, but the user excluded every one of them.
    AllDevicesExcluded,
    /// The miner only works for pools.
    NodeMiningNotSupported,
    /// No connection type was loaded.
    ConnectionTypeNotSet,
    /// No wallet address was loaded.
    TariAddressNotSet,
    /// `nvidia-smi` failed with that error output.
    EnumerationFailed { error_output: String },
}

impl MiningError {
    /// What the error says.
    pub open spec fn spec_message(self) -> Seq<char> {
        match self {
            MiningError::NoCompatibleDevices => "No TARI.Miner compatible GPU devices found"@,
            MiningError::AllDevicesExcluded => "All GPU devices are excluded"@,
            MiningError::NodeMiningNotSupported => "TARI.Miner does not support node mining"@,
            MiningError::ConnectionTypeNotSet =>
                "Connection type must be set before starting the TariMinerGpuMiner"@,
            MiningError::TariAddressNotSet =>
                "Tari address must be set before starting the TariMinerGpuMiner"@,
            MiningError::EnumerationFailed { error_output } =>
                "nvidia-smi could not enumerate NVIDIA GPUs: "@ + error_output@,
        }
    }

    /// What the error says.
    pub fn message(&self) -> (message: String)
        ensures
            message@ == self.spec_message(),
    {
        match self {
            MiningError::NoCompatibleDevices =>
                "No TARI.Miner compatible GPU devices found".to_string(),
            MiningError::AllDevicesExcluded => "All GPU devices are excluded".to_string(),
            MiningError::NodeMiningNotSupported =>
                "TARI.Miner does not support node mining".to_string(),
            MiningError::ConnectionTypeNotSet =>
                "Connection type must be set before starting the TariMinerGpuMiner".to_string(),
            MiningError::TariAddressNotSet =>
                "Tari address must be set before starting the TariMinerGpuMiner".to_string(),
            MiningError::EnumerationFailed { error_output } =>
                "nvidia-smi could not enumerate NVIDIA GPUs: ".to_string().concat(
                    error_output.as_str(),
                ),
        }
    }
}

/// A failed enumeration says so and then gives the whole error output, and no two kinds of errors
/// say the same.
pub proof fn law_errors_say_what_happened(error: MiningError, other: MiningError)
    ensures
        error matches MiningError::EnumerationFailed { error_output } ==> {
            let said = error.spec_message();
            &&& said.len() == 44 + error_output@.len()
            &&& said.take(44) == "nvidia-smi could not enumerate NVIDIA GPUs: "@
            &&& said.skip(44) == error_output@
        },
        error.spec_message() == other.spec_message() ==> {
            &&& error is NoCompatibleDevices <==> other is NoCompatibleDevices
            &&& error is AllDevicesExcluded <==> other is AllDevicesExcluded
            &&& error is NodeMiningNotSupported <==> other is NodeMiningNotSupported
            &&& error is ConnectionTypeNotSet <==> other is ConnectionTypeNotSet
            &&& error is TariAddressNotSet <==> other is TariAddressNotSet
        },
{
    reveal_strlit("No TARI.Miner compatible GPU devices found");
    reveal_strlit("All GPU devices are excluded");
    reveal_strlit("TARI.Miner does not support node mining");
    reveal_strlit("Connection type must be set before starting the TariMinerGpuMiner");
    reveal_strlit("Tari address must be set before starting the TariMinerGpuMiner");
    reveal_strlit("nvidia-smi could not enumerate NVIDIA GPUs: ");
    match error {
        MiningError::EnumerationFailed { error_output } => {
            let prefix = "nvidia-smi could not enumerate NVIDIA GPUs: "@;
            assert(error.spec_message().take(prefix.len() as int) =~= prefix);
            assert(error.spec_message().skip(prefix.len() as int) =~= error_output@);
            assert(error.spec_message()[0] == 'n');
        },
        _ => {},
    }
    match other {
        MiningError::EnumerationFailed { .. } => {
            assert(other.spec_message()[0] == 'n');
        },
        _ => {},
    }
    assert("No TARI.Miner compatible GPU devices found"@[0] == 'N');
    assert("All GPU devices are excluded"@[0] == 'A');
    assert("TARI.Miner does not support node mining"@[1] == 'A');
    assert("Connection type must be set before starting the TariMinerGpuMiner"@[0] == 'C');
    assert("Tari address must be set before starting the TariMinerGpuMiner"@[1] == 'a');
    assert("TARI.Miner does not support node mining"@[0] == 'T');
    assert("Tari address must be set before starting the TariMinerGpuMiner"@[0] == 'T');
}

} // verus!
