use vstd::prelude::*;
use vstd::string::*;

verus! {

/// The label shown for a port that accepted a connection.
pub open spec fn service_hint_of(port: u16) -> Seq<char> {
    if port == 20 { "FTP Data"@ }
    else if port == 21 { "FTP Control"@ }
    else if port == 22 { "SSH"@ }
    else if port == 23 { "Telnet"@ }
    else if port == 25 { "SMTP"@ }
    else if port == 53 { "DNS"@ }
    else if port == 80 { "HTTP"@ }
    else if port == 110 { "POP3"@ }
    else if port == 143 { "IMAP"@ }
    else if port == 443 { "HTTPS"@ }
    else if port == 445 { "SMB"@ }
    else if port == 554 { "RTSP"@ }
    else if port == 1883 { "MQTT"@ }
    else if port == 3306 { "MySQL"@ }
    else if port == 3389 { "RDP"@ }
    else if port == 4747 { "IP Camera"@ }
    else if port == 5432 { "PostgreSQL"@ }
    else if port == 8080 || port == 8081 || port == 8082 { "HTTP Alt/Camera"@ }
    else if port == 8443 { "HTTPS Alt"@ }
    else { "Unknown"@ }
}

/// Ports on which a camera is likely to serve HTTP or RTSP.
pub open spec fn camera_port(port: u16) -> bool {
    port == 80 || port == 8080 || port == 8081 || port == 8082 || port == 4747 || port == 554
}

/// The human-readable service label of a port; "Unknown" for unmapped ports.
pub fn get_service_hint(port: u16) -> (r: String)
    ensures
        r@ == service_hint_of(port),
{
    let label: &str = match port {
        20 => "FTP Data",
        21 => "FTP Control",
        22 => "SSH",
        23 => "Telnet",
        25 => "SMTP",
        53 => "DNS",
        80 => "HTTP",
        110 => "POP3",
        143 => "IMAP",
        443 => "HTTPS",
        445 => "SMB",
        554 => "RTSP",
        1883 => "MQTT",
        3306 => "MySQL",
        3389 => "RDP",
        4747 => "IP Camera",
        5432 => "PostgreSQL",
        8080 => "HTTP Alt/Camera",
        8081 => "HTTP Alt/Camera",
        8082 => "HTTP Alt/Camera",
        8443 => "HTTPS Alt",
        _ => "Unknown",
    };
    String::from_str(label)
}

/// Whether a port belongs to the camera-class subset.
pub fn is_camera_port(port: u16) -> (r: bool)
    ensures
        r == camera_port(port),
{
    port == 80 || port == 8080 || port == 8081 || port == 8082 || port == 4747 || port == 554
}

} // verus!
