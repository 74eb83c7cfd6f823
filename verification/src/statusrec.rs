//! The status record: a device-telemetry snapshot of the `.dat` stream.

use vstd::prelude::*;

use crate::ciheader::CIHeader;
use crate::error::GlfError;
use crate::reader::le_u16_at;
use crate::reader::le_u32_at;
use crate::reader::le_u64_at;
use crate::reader::read_u16;
use crate::reader::read_u32;
use crate::reader::read_u64;
use crate::reader::read_u8;

verus! {

/// Number of bytes every status record body occupies on the wire, the one
/// trailing pad byte included.
pub const STATUS_BODY_LEN: usize = 218;

/// The Status Record. Holds information on the status of the sonar at this
/// particular time.
///
/// Temperature and link-speed fields are IEEE-754 `f64` values on the wire
/// and are held as their raw little-endian bit patterns.
#[derive(Clone, Copy, Debug)]
pub struct StatusRecord {
    /// The CIHeader.
    pub header: CIHeader,
    /// BF Version.
    pub bf_version: u16,
    /// DA Version.
    pub da_version: u16,
    /// Flags.
    pub flags: u16,
    /// The Sonar ID.
    pub device_id: u16,
    /// XD Selected.
    pub xd_selected: u8,
    /// MK2: FPGA PCB temperature, raw `f64` bits.
    pub vga_t1: u64,
    /// MK2: HSC PCB temperature, raw `f64` bits.
    pub vga_t2: u64,
    /// MK2: DA FPGA, raw `f64` bits.
    pub vga_t3: u64,
    /// VGA Transducer temperature, raw `f64` bits.
    pub vga_t4: u64,
    /// PSU Temperature, raw `f64` bits.
    pub psu_t: u64,
    /// Die temperature, raw `f64` bits.
    pub die_t: u64,
    /// Transmit temperature, raw `f64` bits.
    pub tx_t: u64,
    /// AFE0 Top temperature, raw `f64` bits.
    pub afe0_top_temp: u64,
    /// AFE0 Bottom temperature, raw `f64` bits.
    pub afe0_bot_temp: u64,
    /// AFE1 Top temperature, raw `f64` bits.
    pub afe1_top_temp: u64,
    /// AFE1 Bottom temperature, raw `f64` bits.
    pub afe1_bot_temp: u64,
    /// AFE2 Top temperature, raw `f64` bits.
    pub afe2_top_temp: u64,
    /// AFE2 Bottom temperature, raw `f64` bits.
    pub afe2_bot_temp: u64,
    /// AFE3 Top temperature, raw `f64` bits.
    pub afe3_top_temp: u64,
    /// AFE3 Bottom temperature, raw `f64` bits.
    pub afe3_bot_temp: u64,
    /// Link type.
    pub link_type: u16,
    /// Uplink speed, raw `f64` bits.
    pub uplink_speed: u64,
    /// Downlink speed, raw `f64` bits.
    pub downlink_speed: u64,
    /// Link quality as percentage.
    pub link_quality: u16,
    /// The packet count (tx and rx).
    pub packet_count: u32,
    /// Received error count.
    pub recv_error: u32,
    /// Number of packets resent.
    pub resent_packet_count: u32,
    /// Number of dropped packets.
    pub dropped_packet_count: u32,
    /// Number of unknown packets.
    pub unknown_packet_count: u32,
    /// Lost line count.
    pub lost_line_count: u32,
    /// Packet count for all devices.
    pub general_count: u32,
    /// Alternative IP Address.
    pub sonar_alt_ip: u32,
    /// Currently connected surface PC IP Address.
    pub surface_ip: u32,
    /// The subnet mask.
    pub subnet_mask: [u8; 4],
    /// Current MAC Address.
    pub mac_addr: [u8; 6],
    /// Boot status register.
    pub boot_sts_register: u32,
    /// Boot status register (DA).
    pub boot_sts_register_da: u32,
    /// Internal FPGA timestamp.
    pub fpga_time: u64,
    /// DIP switch state.
    pub dip_switch: u16,
    /// Shutdown reason.
    pub shutdown_status: u16,
    /// Adaptor found?
    pub net_adap_found: bool,
}

/// The mathematical model of a [`StatusRecord`]: the same fields with the
/// two address arrays as sequences.
#[verifier::ext_equal]
pub struct StatusRecModel {
    pub header: CIHeader,
    pub bf_version: u16,
    pub da_version: u16,
    pub flags: u16,
    pub device_id: u16,
    pub xd_selected: u8,
    pub vga_t1: u64,
    pub vga_t2: u64,
    pub vga_t3: u64,
    pub vga_t4: u64,
    pub psu_t: u64,
    pub die_t: u64,
    pub tx_t: u64,
    pub afe0_top_temp: u64,
    pub afe0_bot_temp: u64,
    pub afe1_top_temp: u64,
    pub afe1_bot_temp: u64,
    pub afe2_top_temp: u64,
    pub afe2_bot_temp: u64,
    pub afe3_top_temp: u64,
    pub afe3_bot_temp: u64,
    pub link_type: u16,
    pub uplink_speed: u64,
    pub downlink_speed: u64,
    pub link_quality: u16,
    pub packet_count: u32,
    pub recv_error: u32,
    pub resent_packet_count: u32,
    pub dropped_packet_count: u32,
    pub unknown_packet_count: u32,
    pub lost_line_count: u32,
    pub general_count: u32,
    pub sonar_alt_ip: u32,
    pub surface_ip: u32,
    pub subnet_mask: Seq<u8>,
    pub mac_addr: Seq<u8>,
    pub boot_sts_register: u32,
    pub boot_sts_register_da: u32,
    pub fpga_time: u64,
    pub dip_switch: u16,
    pub shutdown_status: u16,
    pub net_adap_found: bool,
}

impl View for StatusRecord {
    type V = StatusRecModel;

    open spec fn view(&self) -> StatusRecModel {
        StatusRecModel {
            header: self.header,
            bf_version: self.bf_version,
            da_version: self.da_version,
            flags: self.flags,
            device_id: self.device_id,
            xd_selected: self.xd_selected,
            vga_t1: self.vga_t1,
            vga_t2: self.vga_t2,
            vga_t3: self.vga_t3,
            vga_t4: self.vga_t4,
            psu_t: self.psu_t,
            die_t: self.die_t,
            tx_t: self.tx_t,
            afe0_top_temp: self.afe0_top_temp,
            afe0_bot_temp: self.afe0_bot_temp,
            afe1_top_temp: self.afe1_top_temp,
            afe1_bot_temp: self.afe1_bot_temp,
            afe2_top_temp: self.afe2_top_temp,
            afe2_bot_temp: self.afe2_bot_temp,
            afe3_top_temp: self.afe3_top_temp,
            afe3_bot_temp: self.afe3_bot_temp,
            link_type: self.link_type,
            uplink_speed: self.uplink_speed,
            downlink_speed: self.downlink_speed,
            link_quality: self.link_quality,
            packet_count: self.packet_count,
            recv_error: self.recv_error,
            resent_packet_count: self.resent_packet_count,
            dropped_packet_count: self.dropped_packet_count,
            unknown_packet_count: self.unknown_packet_count,
            lost_line_count: self.lost_line_count,
            general_count: self.general_count,
            sonar_alt_ip: self.sonar_alt_ip,
            surface_ip: self.surface_ip,
            subnet_mask: self.subnet_mask@,
            mac_addr: self.mac_addr@,
            boot_sts_register: self.boot_sts_register,
            boot_sts_register_da: self.boot_sts_register_da,
            fpga_time: self.fpga_time,
            dip_switch: self.dip_switch,
            shutdown_status: self.shutdown_status,
            net_adap_found: self.net_adap_found,
        }
    }
}

/// What a status record body starting at `off` decodes to, paired with the
/// enclosing header, or `None` where its 218 bytes (one trailing pad byte
/// included) do not fit in the buffer. The widths enforce no other structure.
pub open spec fn spec_parse_status_record(b: Seq<u8>, h: CIHeader, off: int) -> Option<
    StatusRecModel,
>
    recommends
        0 <= off <= b.len(),
{
    if off + 218 > b.len() {
        None
    } else {
        Some(
            StatusRecModel {
                header: h,
                bf_version: le_u16_at(b, off),
                da_version: le_u16_at(b, off + 2),
                flags: le_u16_at(b, off + 4),
                device_id: le_u16_at(b, off + 6),
                xd_selected: b[off + 8],
                vga_t1: le_u64_at(b, off + 10),
                vga_t2: le_u64_at(b, off + 18),
                vga_t3: le_u64_at(b, off + 26),
                vga_t4: le_u64_at(b, off + 34),
                psu_t: le_u64_at(b, off + 42),
                die_t: le_u64_at(b, off + 50),
                tx_t: le_u64_at(b, off + 58),
                afe0_top_temp: le_u64_at(b, off + 66),
                afe0_bot_temp: le_u64_at(b, off + 74),
                afe1_top_temp: le_u64_at(b, off + 82),
                afe1_bot_temp: le_u64_at(b, off + 90),
                afe2_top_temp: le_u64_at(b, off + 98),
                afe2_bot_temp: le_u64_at(b, off + 106),
                afe3_top_temp: le_u64_at(b, off + 114),
                afe3_bot_temp: le_u64_at(b, off + 122),
                link_type: le_u16_at(b, off + 130),
                uplink_speed: le_u64_at(b, off + 132),
                downlink_speed: le_u64_at(b, off + 140),
                link_quality: le_u16_at(b, off + 148),
                packet_count: le_u32_at(b, off + 150),
                recv_error: le_u32_at(b, off + 154),
                resent_packet_count: le_u32_at(b, off + 158),
                dropped_packet_count: le_u32_at(b, off + 162),
                unknown_packet_count: le_u32_at(b, off + 166),
                lost_line_count: le_u32_at(b, off + 170),
                general_count: le_u32_at(b, off + 174),
                sonar_alt_ip: le_u32_at(b, off + 178),
                surface_ip: le_u32_at(b, off + 182),
                subnet_mask: b.subrange(off + 186, off + 190),
                mac_addr: b.subrange(off + 190, off + 196),
                boot_sts_register: le_u32_at(b, off + 196),
                boot_sts_register_da: le_u32_at(b, off + 200),
                fpga_time: le_u64_at(b, off + 204),
                dip_switch: le_u16_at(b, off + 212),
                shutdown_status: le_u16_at(b, off + 214),
                net_adap_found: b[off + 216] != 0,
            },
        )
    }
}

/// Parse one status record body, advancing `file_offset` past its 218 bytes
/// on success.
///
/// * `header` - the CI Header for this record.
/// * `dat_buffer` - the bytes buffer we are reading from.
/// * `file_offset` - the offset in the dat_buffer.
pub fn parse_status_record(
    header: &CIHeader,
    dat_buffer: &Vec<u8>,
    file_offset: &mut usize,
) -> (r: Result<StatusRecord, GlfError>)
    requires
        *old(file_offset) <= dat_buffer@.len(),
    ensures
        match r {
            Ok(rec) => {
                &&& spec_parse_status_record(dat_buffer@, *header, *old(file_offset) as int)
                    == Some(rec@)
                &&& *final(file_offset) == *old(file_offset) + 218
                &&& *final(file_offset) <= dat_buffer@.len()
            },
            Err(e) => {
                &&& e == GlfError::TruncatedOrMalformed
                &&& spec_parse_status_record(dat_buffer@, *header, *old(file_offset) as int)
                    is None
                &&& *final(file_offset) == *old(file_offset)
            },
        },
{
    let off: usize = *file_offset;
    if dat_buffer.len() - off < STATUS_BODY_LEN {
        return Err(GlfError::TruncatedOrMalformed);
    }
    let subnet_mask: [u8; 4] = [
        read_u8(dat_buffer, off + 186),
        read_u8(dat_buffer, off + 187),
        read_u8(dat_buffer, off + 188),
        read_u8(dat_buffer, off + 189),
    ];
    let mac_addr: [u8; 6] = [
        read_u8(dat_buffer, off + 190),
        read_u8(dat_buffer, off + 191),
        read_u8(dat_buffer, off + 192),
        read_u8(dat_buffer, off + 193),
        read_u8(dat_buffer, off + 194),
        read_u8(dat_buffer, off + 195),
    ];
    let rec = StatusRecord {
        header: *header,
        bf_version: read_u16(dat_buffer, off),
        da_version: read_u16(dat_buffer, off + 2),
        flags: read_u16(dat_buffer, off + 4),
        device_id: read_u16(dat_buffer, off + 6),
        xd_selected: read_u8(dat_buffer, off + 8),
        vga_t1: read_u64(dat_buffer, off + 10),
        vga_t2: read_u64(dat_buffer, off + 18),
        vga_t3: read_u64(dat_buffer, off + 26),
        vga_t4: read_u64(dat_buffer, off + 34),
        psu_t: read_u64(dat_buffer, off + 42),
        die_t: read_u64(dat_buffer, off + 50),
        tx_t: read_u64(dat_buffer, off + 58),
        afe0_top_temp: read_u64(dat_buffer, off + 66),
        afe0_bot_temp: read_u64(dat_buffer, off + 74),
        afe1_top_temp: read_u64(dat_buffer, off + 82),
        afe1_bot_temp: read_u64(dat_buffer, off + 90),
        afe2_top_temp: read_u64(dat_buffer, off + 98),
        afe2_bot_temp: read_u64(dat_buffer, off + 106),
        afe3_top_temp: read_u64(dat_buffer, off + 114),
        afe3_bot_temp: read_u64(dat_buffer, off + 122),
        link_type: read_u16(dat_buffer, off + 130),
        uplink_speed: read_u64(dat_buffer, off + 132),
        downlink_speed: read_u64(dat_buffer, off + 140),
        link_quality: read_u16(dat_buffer, off + 148),
        packet_count: read_u32(dat_buffer, off + 150),
        recv_error: read_u32(dat_buffer, off + 154),
        resent_packet_count: read_u32(dat_buffer, off + 158),
        dropped_packet_count: read_u32(dat_buffer, off + 162),
        unknown_packet_count: read_u32(dat_buffer, off + 166),
        lost_line_count: read_u32(dat_buffer, off + 170),
        general_count: read_u32(dat_buffer, off + 174),
        sonar_alt_ip: read_u32(dat_buffer, off + 178),
        surface_ip: read_u32(dat_buffer, off + 182),
        subnet_mask,
        mac_addr,
        boot_sts_register: read_u32(dat_buffer, off + 196),
        boot_sts_register_da: read_u32(dat_buffer, off + 200),
        fpga_time: read_u64(dat_buffer, off + 204),
        dip_switch: read_u16(dat_buffer, off + 212),
        shutdown_status: read_u16(dat_buffer, off + 214),
        net_adap_found: read_u8(dat_buffer, off + 216) != 0,
    };
    proof {
        let spec_rec = spec_parse_status_record(
            dat_buffer@,
            *header,
            off as int,
        ).unwrap();
        assert(rec@.subnet_mask =~= spec_rec.subnet_mask);
        assert(rec@.mac_addr =~= spec_rec.mac_addr);
        assert(rec@ =~= spec_rec);
    }
    *file_offset = off + STATUS_BODY_LEN;
    Ok(rec)
}

} // verus!
