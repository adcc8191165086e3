use vstd::prelude::*;

use crate::configuration::DataType;

verus! {

/// One known SRUM table: the topic its rows go to, the GUID table name in
/// the database, and its column catalog.
pub struct SrumTable {
    pub topic: &'static str,
    pub name: &'static str,
    pub fields: Vec<(&'static str, DataType)>,
}

/// The field that orders every SRUM topic.
pub const SRUM_SORT_FIELD: &'static str = "TimeStamp";

/// The table holding the string index that `AppId` and `UserId` columns
/// reference.
pub const ID_MAP_TABLE: &'static str = "SruDbIdMapTable";

/// The ten known SRUM tables, each under its fixed GUID name.
pub fn srum_tables() -> (r: Vec<SrumTable>)
    ensures
        r@.len() == 10,
        r@[0].topic@ == "srum_app_timeline"@ && r@[0].name@
            == "{5C8CF1C7-7257-4F13-B223-970EF5939312}"@,
        r@[1].topic@ == "srum_application_resources"@ && r@[1].name@
            == "{D10CA2FE-6FCF-4F6D-848E-B2E99266FA89}"@,
        r@[2].topic@ == "srum_energy_estimation"@ && r@[2].name@
            == "{DA73FB89-2BEA-4DDC-86B8-6E048C6DA477}"@,
        r@[3].topic@ == "srum_energy_usage"@ && r@[3].name@
            == "{FEE4E14F-02A9-4550-B5CE-5FA2DA202E37}"@,
        r@[4].topic@ == "srum_energy_usage_long_term"@ && r@[4].name@
            == "{FEE4E14F-02A9-4550-B5CE-5FA2DA202E37}LT"@,
        r@[5].topic@ == "srum_network_connectivity_usage"@ && r@[5].name@
            == "{DD6636C4-8929-4683-974E-22C046A43763}"@,
        r@[6].topic@ == "srum_network_data_usage"@ && r@[6].name@
            == "{973F5D5C-1D90-4944-BE8E-24B94231A174}"@,
        r@[7].topic@ == "srum_tagged_energy"@ && r@[7].name@
            == "{B6D82AF1-F780-4E17-8077-6CB9AD8A6FC4}"@,
        r@[8].topic@ == "srum_vfuprov"@ && r@[8].name@
            == "{7ACBBAA3-D029-4BE4-9A7A-0885927F1D8F}"@,
        r@[9].topic@ == "srum_wpn_provider"@ && r@[9].name@
            == "{D10CA2FE-6FCF-4F6D-848E-B2E99266FA86}"@,
        forall|i: int|
            0 <= i < 10 ==> (#[trigger] r@[i]).fields@.len() >= 4 && r@[i].fields@[0].0@
                == "AutoIncId"@ && r@[i].fields@[1].0@ == "TimeStamp"@ && r@[i].fields@[1].1
                == DataType::Date && r@[i].fields@[2].0@ == "AppId"@ && r@[i].fields@[3].0@
                == "UserId"@,
{
    let mut r: Vec<SrumTable> = Vec::new();

    let mut fields: Vec<(&'static str, DataType)> = Vec::new();
    fields.push(("AutoIncId", DataType::Int32));
    fields.push(("TimeStamp", DataType::Date));
    fields.push(("AppId", DataType::String));
    fields.push(("UserId", DataType::String));
    fields.push(("Flags", DataType::Int32));
    fields.push(("EndTime", DataType::Int64));
    fields.push(("DurationMS", DataType::Int32));
    fields.push(("SpanMS", DataType::Int32));
    fields.push(("TimelineEnd", DataType::Int32));
    fields.push(("InFocusTimeline", DataType::Int64));
    fields.push(("UserInputTimeline", DataType::Int64));
    fields.push(("CompRenderedTimeline", DataType::Int64));
    fields.push(("CompDirtiedTimeline", DataType::Int64));
    fields.push(("CompPropagatedTimeline", DataType::Int64));
    fields.push(("AudioInTimeline", DataType::Int64));
    fields.push(("AudioOutTimeline", DataType::Int64));
    fields.push(("CpuTimeline", DataType::Int64));
    fields.push(("DiskTimeline", DataType::Int64));
    fields.push(("NetworkTimeline", DataType::Int64));
    fields.push(("MBBTimeline", DataType::Int64));
    fields.push(("InFocusS", DataType::Int32));
    fields.push(("PSMForegroundS", DataType::Int32));
    fields.push(("UserInputS", DataType::Int32));
    fields.push(("CompRenderedS", DataType::Int32));
    fields.push(("CompDirtiedS", DataType::Int32));
    fields.push(("CompPropagatedS", DataType::Int32));
    fields.push(("AudioInS", DataType::Int32));
    fields.push(("AudioOutS", DataType::Int32));
    fields.push(("Cycles", DataType::Int64));
    fields.push(("CyclesBreakdown", DataType::Int64));
    fields.push(("CyclesAttr", DataType::Int64));
    fields.push(("CyclesAttrBreakdown", DataType::Int64));
    fields.push(("CyclesWOB", DataType::Int64));
    fields.push(("CyclesWOBBreakdown", DataType::Int64));
    fields.push(("DiskRaw", DataType::Int64));
    fields.push(("NetworkTailRaw", DataType::Int64));
    fields.push(("NetworkBytesRaw", DataType::Int64));
    fields.push(("MBBTailRaw", DataType::Int64));
    fields.push(("MBBBytesRaw", DataType::Int64));
    fields.push(("DisplayRequiredS", DataType::Int32));
    fields.push(("DisplayRequiredTimeline", DataType::Int64));
    fields.push(("KeyboardInputTimeline", DataType::Int64));
    fields.push(("KeyboardInputS", DataType::Int32));
    fields.push(("MouseInputS", DataType::Int32));
    r.push(
        SrumTable {
            topic: "srum_app_timeline",
            name: "{5C8CF1C7-7257-4F13-B223-970EF5939312}",
            fields,
        },
    );

    let mut fields: Vec<(&'static str, DataType)> = Vec::new();
    fields.push(("AutoIncId", DataType::Int32));
    fields.push(("TimeStamp", DataType::Date));
    fields.push(("AppId", DataType::String));
    fields.push(("UserId", DataType::String));
    fields.push(("ForegroundCycleTime", DataType::Int64));
    fields.push(("BackgroundCycleTime", DataType::Int64));
    fields.push(("FaceTime", DataType::Int64));
    fields.push(("ForegroundContextSwitches", DataType::Int32));
    fields.push(("BackgroundContextSwitches", DataType::Int32));
    fields.push(("ForegroundBytesRead", DataType::Int64));
    fields.push(("ForegroundBytesWritten", DataType::Int64));
    fields.push(("ForegroundNumReadOperations", DataType::Int32));
    fields.push(("ForegroundNumWriteOperations", DataType::Int32));
    fields.push(("ForegroundNumberOfFlushes", DataType::Int32));
    fields.push(("BackgroundBytesRead", DataType::Int64));
    fields.push(("BackgroundBytesWritten", DataType::Int64));
    fields.push(("BackgroundNumReadOperations", DataType::Int32));
    fields.push(("BackgroundNumWriteOperations", DataType::Int32));
    fields.push(("BackgroundNumberOfFlushes", DataType::Int32));
    r.push(
        SrumTable {
            topic: "srum_application_resources",
            name: "{D10CA2FE-6FCF-4F6D-848E-B2E99266FA89}",
            fields,
        },
    );

    let mut fields: Vec<(&'static str, DataType)> = Vec::new();
    fields.push(("AutoIncId", DataType::Int32));
    fields.push(("TimeStamp", DataType::Date));
    fields.push(("AppId", DataType::String));
    fields.push(("UserId", DataType::String));
    fields.push(("BinaryData", DataType::String));
    r.push(
        SrumTable {
            topic: "srum_energy_estimation",
            name: "{DA73FB89-2BEA-4DDC-86B8-6E048C6DA477}",
            fields,
        },
    );

    let mut fields: Vec<(&'static str, DataType)> = Vec::new();
    fields.push(("AutoIncId", DataType::Int32));
    fields.push(("TimeStamp", DataType::Date));
    fields.push(("AppId", DataType::String));
    fields.push(("UserId", DataType::String));
    fields.push(("EventTimestamp", DataType::Int64));
    fields.push(("StateTransition", DataType::Int32));
    fields.push(("DesignedCapacity", DataType::Int32));
    fields.push(("FullChargedCapacity", DataType::Int32));
    fields.push(("ChargeLevel", DataType::Int32));
    fields.push(("CycleCount", DataType::Int32));
    fields.push(("ConfigurationHash", DataType::String));
    r.push(
        SrumTable {
            topic: "srum_energy_usage",
            name: "{FEE4E14F-02A9-4550-B5CE-5FA2DA202E37}",
            fields,
        },
    );

    let mut fields: Vec<(&'static str, DataType)> = Vec::new();
    fields.push(("AutoIncId", DataType::Int32));
    fields.push(("TimeStamp", DataType::Date));
    fields.push(("AppId", DataType::String));
    fields.push(("UserId", DataType::String));
    fields.push(("ActiveAcTime", DataType::Int32));
    fields.push(("CsAcTime", DataType::Int32));
    fields.push(("ActiveDcTime", DataType::Int32));
    fields.push(("CsDcTime", DataType::Int32));
    fields.push(("ActiveDischargeTime", DataType::Int32));
    fields.push(("CsDischargeTime", DataType::Int32));
    fields.push(("ActiveEnergy", DataType::Int32));
    fields.push(("CsEnergy", DataType::String));
    fields.push(("DesignedCapacity", DataType::String));
    fields.push(("FullChargedCapacity", DataType::Int32));
    fields.push(("CycleCount", DataType::Int32));
    fields.push(("ConfigurationHash", DataType::String));
    r.push(
        SrumTable {
            topic: "srum_energy_usage_long_term",
            name: "{FEE4E14F-02A9-4550-B5CE-5FA2DA202E37}LT",
            fields,
        },
    );

    let mut fields: Vec<(&'static str, DataType)> = Vec::new();
    fields.push(("AutoIncId", DataType::Int32));
    fields.push(("TimeStamp", DataType::Date));
    fields.push(("AppId", DataType::String));
    fields.push(("UserId", DataType::String));
    fields.push(("InterfaceLuid", DataType::Int64));
    fields.push(("L2ProfileId", DataType::Int32));
    fields.push(("ConnectedTime", DataType::Int32));
    fields.push(("ConnectStartTime", DataType::Date));
    fields.push(("L2ProfileFlags", DataType::Int32));
    r.push(
        SrumTable {
            topic: "srum_network_connectivity_usage",
            name: "{DD6636C4-8929-4683-974E-22C046A43763}",
            fields,
        },
    );

    let mut fields: Vec<(&'static str, DataType)> = Vec::new();
    fields.push(("AutoIncId", DataType::Int32));
    fields.push(("TimeStamp", DataType::Date));
    fields.push(("AppId", DataType::String));
    fields.push(("UserId", DataType::String));
    fields.push(("InterfaceLuid", DataType::Int64));
    fields.push(("L2ProfileId", DataType::Int32));
    fields.push(("L2ProfileFlags", DataType::Int32));
    fields.push(("BytesSent", DataType::Int64));
    fields.push(("BytesRecvd", DataType::Int64));
    r.push(
        SrumTable {
            topic: "srum_network_data_usage",
            name: "{973F5D5C-1D90-4944-BE8E-24B94231A174}",
            fields,
        },
    );

    let mut fields: Vec<(&'static str, DataType)> = Vec::new();
    fields.push(("AutoIncId", DataType::Int32));
    fields.push(("TimeStamp", DataType::Date));
    fields.push(("AppId", DataType::String));
    fields.push(("UserId", DataType::String));
    fields.push(("Metadata", DataType::Int64));
    fields.push(("EnergyData", DataType::String));
    fields.push(("Tag", DataType::String));
    r.push(
        SrumTable {
            topic: "srum_tagged_energy",
            name: "{B6D82AF1-F780-4E17-8077-6CB9AD8A6FC4}",
            fields,
        },
    );

    let mut fields: Vec<(&'static str, DataType)> = Vec::new();
    fields.push(("AutoIncId", DataType::Int32));
    fields.push(("TimeStamp", DataType::Date));
    fields.push(("AppId", DataType::String));
    fields.push(("UserId", DataType::String));
    fields.push(("Flags", DataType::Int64));
    fields.push(("StartTime", DataType::Int64));
    fields.push(("EndTime", DataType::Int64));
    fields.push(("Usage", DataType::String));
    r.push(
        SrumTable {
            topic: "srum_vfuprov",
            name: "{7ACBBAA3-D029-4BE4-9A7A-0885927F1D8F}",
            fields,
        },
    );

    let mut fields: Vec<(&'static str, DataType)> = Vec::new();
    fields.push(("AutoIncId", DataType::Int32));
    fields.push(("TimeStamp", DataType::Date));
    fields.push(("AppId", DataType::String));
    fields.push(("UserId", DataType::String));
    fields.push(("NotificationType", DataType::Int32));
    fields.push(("PayloadSize", DataType::Int32));
    fields.push(("NetworkType", DataType::Int32));
    r.push(
        SrumTable {
            topic: "srum_wpn_provider",
            name: "{D10CA2FE-6FCF-4F6D-848E-B2E99266FA86}",
            fields,
        },
    );

    r
}

} // verus!
