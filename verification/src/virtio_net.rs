//! Plain models of the virtio-net configuration and control structures
//! and their feature, status and command constants. The union the wire
//! format overlays over the checksum, receive-coalescing and
//! segment-count fields is flattened into the checksum pair, the form the
//! device paths here read.

#![allow(non_camel_case_types)]

use vstd::prelude::*;

verus! {

pub const VIRTIO_NET_F_CSUM: u32 = 0;
pub const VIRTIO_NET_F_GUEST_CSUM: u32 = 1;
pub const VIRTIO_NET_F_CTRL_GUEST_OFFLOADS: u32 = 2;
pub const VIRTIO_NET_F_MTU: u32 = 3;
pub const VIRTIO_NET_F_MAC: u32 = 5;
pub const VIRTIO_NET_F_GUEST_TSO4: u32 = 7;
pub const VIRTIO_NET_F_GUEST_TSO6: u32 = 8;
pub const VIRTIO_NET_F_GUEST_ECN: u32 = 9;
pub const VIRTIO_NET_F_GUEST_UFO: u32 = 10;
pub const VIRTIO_NET_F_HOST_TSO4: u32 = 11;
pub const VIRTIO_NET_F_HOST_TSO6: u32 = 12;
pub const VIRTIO_NET_F_HOST_ECN: u32 = 13;
pub const VIRTIO_NET_F_HOST_UFO: u32 = 14;
pub const VIRTIO_NET_F_MRG_RXBUF: u32 = 15;
pub const VIRTIO_NET_F_STATUS: u32 = 16;
pub const VIRTIO_NET_F_CTRL_VQ: u32 = 17;
pub const VIRTIO_NET_F_CTRL_RX: u32 = 18;
pub const VIRTIO_NET_F_CTRL_VLAN: u32 = 19;
pub const VIRTIO_NET_F_CTRL_RX_EXTRA: u32 = 20;
pub const VIRTIO_NET_F_GUEST_ANNOUNCE: u32 = 21;
pub const VIRTIO_NET_F_MQ: u32 = 22;
pub const VIRTIO_NET_F_CTRL_MAC_ADDR: u32 = 23;
pub const VIRTIO_NET_F_DEVICE_STATS: u32 = 50;
pub const VIRTIO_NET_F_VQ_NOTF_COAL: u32 = 52;
pub const VIRTIO_NET_F_NOTF_COAL: u32 = 53;
pub const VIRTIO_NET_F_GUEST_USO4: u32 = 54;
pub const VIRTIO_NET_F_GUEST_USO6: u32 = 55;
pub const VIRTIO_NET_F_HOST_USO: u32 = 56;
pub const VIRTIO_NET_F_HASH_REPORT: u32 = 57;
pub const VIRTIO_NET_F_GUEST_HDRLEN: u32 = 59;
pub const VIRTIO_NET_F_RSS: u32 = 60;
pub const VIRTIO_NET_F_RSC_EXT: u32 = 61;
pub const VIRTIO_NET_F_STANDBY: u32 = 62;
pub const VIRTIO_NET_F_SPEED_DUPLEX: u32 = 63;
pub const VIRTIO_NET_F_GSO: u32 = 6;
pub const VIRTIO_NET_S_LINK_UP: u32 = 1;
pub const VIRTIO_NET_S_ANNOUNCE: u32 = 2;
pub const VIRTIO_NET_HDR_F_NEEDS_CSUM: u32 = 1;
pub const VIRTIO_NET_HDR_F_DATA_VALID: u32 = 2;
pub const VIRTIO_NET_HDR_F_RSC_INFO: u32 = 4;
pub const VIRTIO_NET_HDR_GSO_NONE: u32 = 0;
pub const VIRTIO_NET_HDR_GSO_TCPV4: u32 = 1;
pub const VIRTIO_NET_HDR_GSO_UDP: u32 = 3;
pub const VIRTIO_NET_HDR_GSO_TCPV6: u32 = 4;
pub const VIRTIO_NET_HDR_GSO_UDP_L4: u32 = 5;
pub const VIRTIO_NET_HDR_GSO_ECN: u32 = 128;
pub const VIRTIO_NET_OK: u32 = 0;
pub const VIRTIO_NET_ERR: u32 = 1;
pub const VIRTIO_NET_CTRL_RX: u32 = 0;
pub const VIRTIO_NET_CTRL_RX_PROMISC: u32 = 0;
pub const VIRTIO_NET_CTRL_RX_ALLMULTI: u32 = 1;
pub const VIRTIO_NET_CTRL_RX_ALLUNI: u32 = 2;
pub const VIRTIO_NET_CTRL_RX_NOMULTI: u32 = 3;
pub const VIRTIO_NET_CTRL_RX_NOUNI: u32 = 4;
pub const VIRTIO_NET_CTRL_RX_NOBCAST: u32 = 5;
pub const VIRTIO_NET_CTRL_MAC: u32 = 1;
pub const VIRTIO_NET_CTRL_MAC_TABLE_SET: u32 = 0;
pub const VIRTIO_NET_CTRL_MAC_ADDR_SET: u32 = 1;
pub const VIRTIO_NET_CTRL_VLAN: u32 = 2;
pub const VIRTIO_NET_CTRL_VLAN_ADD: u32 = 0;
pub const VIRTIO_NET_CTRL_VLAN_DEL: u32 = 1;
pub const VIRTIO_NET_CTRL_ANNOUNCE: u32 = 3;
pub const VIRTIO_NET_CTRL_ANNOUNCE_ACK: u32 = 0;
pub const VIRTIO_NET_CTRL_MQ: u32 = 4;
pub const VIRTIO_NET_CTRL_MQ_VQ_PAIRS_SET: u32 = 0;
pub const VIRTIO_NET_CTRL_MQ_VQ_PAIRS_MIN: u32 = 1;
pub const VIRTIO_NET_CTRL_MQ_VQ_PAIRS_MAX: u32 = 32768;
pub const VIRTIO_NET_CTRL_MQ_RSS_CONFIG: u32 = 1;
pub const VIRTIO_NET_CTRL_MQ_HASH_CONFIG: u32 = 2;
pub const VIRTIO_NET_CTRL_GUEST_OFFLOADS: u32 = 5;
pub const VIRTIO_NET_CTRL_GUEST_OFFLOADS_SET: u32 = 0;
pub const VIRTIO_NET_CTRL_NOTF_COAL: u32 = 6;
pub const VIRTIO_NET_CTRL_NOTF_COAL_TX_SET: u32 = 0;
pub const VIRTIO_NET_CTRL_NOTF_COAL_RX_SET: u32 = 1;
pub const VIRTIO_NET_CTRL_NOTF_COAL_VQ_SET: u32 = 2;
pub const VIRTIO_NET_CTRL_NOTF_COAL_VQ_GET: u32 = 3;
pub const VIRTIO_NET_CTRL_STATS: u32 = 8;
pub const VIRTIO_NET_CTRL_STATS_QUERY: u32 = 0;
pub const VIRTIO_NET_CTRL_STATS_GET: u32 = 1;
pub const VIRTIO_NET_STATS_TYPE_CVQ: u64 = 4294967296;
pub const VIRTIO_NET_STATS_TYPE_RX_BASIC: u32 = 1;
pub const VIRTIO_NET_STATS_TYPE_RX_CSUM: u32 = 2;
pub const VIRTIO_NET_STATS_TYPE_RX_GSO: u32 = 4;
pub const VIRTIO_NET_STATS_TYPE_RX_SPEED: u32 = 8;
pub const VIRTIO_NET_STATS_TYPE_TX_BASIC: u32 = 65536;
pub const VIRTIO_NET_STATS_TYPE_TX_CSUM: u32 = 131072;
pub const VIRTIO_NET_STATS_TYPE_TX_GSO: u32 = 262144;
pub const VIRTIO_NET_STATS_TYPE_TX_SPEED: u32 = 524288;
pub const VIRTIO_NET_STATS_TYPE_REPLY_CVQ: u32 = 32;
pub const VIRTIO_NET_STATS_TYPE_REPLY_RX_BASIC: u32 = 0;
pub const VIRTIO_NET_STATS_TYPE_REPLY_RX_CSUM: u32 = 1;
pub const VIRTIO_NET_STATS_TYPE_REPLY_RX_GSO: u32 = 2;
pub const VIRTIO_NET_STATS_TYPE_REPLY_RX_SPEED: u32 = 3;
pub const VIRTIO_NET_STATS_TYPE_REPLY_TX_BASIC: u32 = 16;
pub const VIRTIO_NET_STATS_TYPE_REPLY_TX_CSUM: u32 = 17;
pub const VIRTIO_NET_STATS_TYPE_REPLY_TX_GSO: u32 = 18;
pub const VIRTIO_NET_STATS_TYPE_REPLY_TX_SPEED: u32 = 19;

pub type __le16 = u16;

pub type __le32 = u32;

pub type __le64 = u64;

pub type __virtio16 = u16;

pub type __virtio32 = u32;

pub type virtio_net_ctrl_ack = u8;

#[derive(Debug, Copy, Clone)]
pub struct virtio_net_config {
    pub mac: [u8; 6],
    pub status: u16,
    pub max_virtqueue_pairs: u16,
    pub mtu: u16,
    pub speed: u32,
    pub duplex: u8,
    pub rss_max_key_size: u8,
    pub rss_max_indirection_table_length: u16,
    pub supported_hash_types: u32,
}

#[derive(Debug, Copy, Clone)]
pub struct virtio_net_hdr_v1 {
    pub flags: u8,
    pub gso_type: u8,
    pub hdr_len: u16,
    pub gso_size: u16,
    pub csum_start: u16,
    pub csum_offset: u16,
    pub num_buffers: u16,
}

#[derive(Debug, Copy, Clone)]
pub struct virtio_net_hdr_v1__bindgen_ty_1__bindgen_ty_1 {
    pub csum_start: u16,
    pub csum_offset: u16,
}

#[derive(Debug, Copy, Clone)]
pub struct virtio_net_hdr_v1__bindgen_ty_1__bindgen_ty_2 {
    pub start: u16,
    pub offset: u16,
}

#[derive(Debug, Copy, Clone)]
pub struct virtio_net_hdr_v1__bindgen_ty_1__bindgen_ty_3 {
    pub segments: u16,
    pub dup_acks: u16,
}

#[derive(Debug, Copy, Clone)]
pub struct virtio_net_hdr_v1_hash {
    pub hdr: virtio_net_hdr_v1,
    pub hash_value: u32,
    pub hash_report: u16,
    pub padding: u16,
}

#[derive(Debug, Copy, Clone)]
pub struct virtio_net_hdr {
    pub flags: u8,
    pub gso_type: u8,
    pub hdr_len: u16,
    pub gso_size: u16,
    pub csum_start: u16,
    pub csum_offset: u16,
}

#[derive(Debug, Copy, Clone)]
pub struct virtio_net_hdr_mrg_rxbuf {
    pub hdr: virtio_net_hdr,
    pub num_buffers: u16,
}

#[derive(Debug, Copy, Clone)]
pub struct virtio_net_ctrl_hdr {
    pub class: u8,
    pub cmd: u8,
}

#[derive(Debug, Copy, Clone)]
pub struct virtio_net_ctrl_mq {
    pub virtqueue_pairs: u16,
}

#[derive(Debug, Clone)]
pub struct virtio_net_rss_config {
    pub hash_types: u32,
    pub indirection_table_mask: u16,
    pub unclassified_queue: u16,
    pub indirection_table: [u16; 1],
    pub max_tx_vq: u16,
    pub hash_key_length: u8,
    pub hash_key_data: Vec<u8>,
}

#[derive(Debug, Clone)]
pub struct virtio_net_hash_config {
    pub hash_types: u32,
    pub reserved: [u16; 4],
    pub hash_key_length: u8,
    pub hash_key_data: Vec<u8>,
}

#[derive(Debug, Copy, Clone)]
pub struct virtio_net_ctrl_coal_tx {
    pub tx_max_packets: u32,
    pub tx_usecs: u32,
}

#[derive(Debug, Copy, Clone)]
pub struct virtio_net_ctrl_coal_rx {
    pub rx_max_packets: u32,
    pub rx_usecs: u32,
}

#[derive(Debug, Copy, Clone)]
pub struct virtio_net_ctrl_coal {
    pub max_packets: u32,
    pub max_usecs: u32,
}

#[derive(Debug, Copy, Clone)]
pub struct virtio_net_ctrl_coal_vq {
    pub vqn: u16,
    pub reserved: u16,
    pub coal: virtio_net_ctrl_coal,
}

#[derive(Debug, Copy, Clone)]
pub struct virtio_net_stats_capabilities {
    pub supported_stats_types: [u64; 1],
}

#[derive(Debug, Copy, Clone)]
pub struct virtio_net_ctrl_queue_stats {
    pub stats: [virtio_net_ctrl_queue_stats__bindgen_ty_1; 1],
}

#[derive(Debug, Copy, Clone)]
pub struct virtio_net_ctrl_queue_stats__bindgen_ty_1 {
    pub vq_index: u16,
    pub reserved: [u16; 3],
    pub types_bitmap: [u64; 1],
}

#[derive(Debug, Copy, Clone)]
pub struct virtio_net_stats_reply_hdr {
    pub type_: u8,
    pub reserved: u8,
    pub vq_index: u16,
    pub reserved1: u16,
    pub size: u16,
}

#[derive(Debug, Copy, Clone)]
pub struct virtio_net_stats_cvq {
    pub hdr: virtio_net_stats_reply_hdr,
    pub command_num: u64,
    pub ok_num: u64,
}

#[derive(Debug, Copy, Clone)]
pub struct virtio_net_stats_rx_basic {
    pub hdr: virtio_net_stats_reply_hdr,
    pub rx_notifications: u64,
    pub rx_packets: u64,
    pub rx_bytes: u64,
    pub rx_interrupts: u64,
    pub rx_drops: u64,
    pub rx_drop_overruns: u64,
}

#[derive(Debug, Copy, Clone)]
pub struct virtio_net_stats_tx_basic {
    pub hdr: virtio_net_stats_reply_hdr,
    pub tx_notifications: u64,
    pub tx_packets: u64,
    pub tx_bytes: u64,
    pub tx_interrupts: u64,
    pub tx_drops: u64,
    pub tx_drop_malformed: u64,
}

#[derive(Debug, Copy, Clone)]
pub struct virtio_net_stats_rx_csum {
    pub hdr: virtio_net_stats_reply_hdr,
    pub rx_csum_valid: u64,
    pub rx_needs_csum: u64,
    pub rx_csum_none: u64,
    pub rx_csum_bad: u64,
}

#[derive(Debug, Copy, Clone)]
pub struct virtio_net_stats_tx_csum {
    pub hdr: virtio_net_stats_reply_hdr,
    pub tx_csum_none: u64,
    pub tx_needs_csum: u64,
}

#[derive(Debug, Copy, Clone)]
pub struct virtio_net_stats_rx_gso {
    pub hdr: virtio_net_stats_reply_hdr,
    pub rx_gso_packets: u64,
    pub rx_gso_bytes: u64,
    pub rx_gso_packets_coalesced: u64,
    pub rx_gso_bytes_coalesced: u64,
}

#[derive(Debug, Copy, Clone)]
pub struct virtio_net_stats_tx_gso {
    pub hdr: virtio_net_stats_reply_hdr,
    pub tx_gso_packets: u64,
    pub tx_gso_bytes: u64,
    pub tx_gso_segments: u64,
    pub tx_gso_segments_bytes: u64,
    pub tx_gso_packets_noseg: u64,
    pub tx_gso_bytes_noseg: u64,
}

#[derive(Debug, Copy, Clone)]
pub struct virtio_net_stats_rx_speed {
    pub hdr: virtio_net_stats_reply_hdr,
    pub rx_ratelimit_packets: u64,
    pub rx_ratelimit_bytes: u64,
}

#[derive(Debug, Copy, Clone)]
pub struct virtio_net_stats_tx_speed {
    pub hdr: virtio_net_stats_reply_hdr,
    pub tx_ratelimit_packets: u64,
    pub tx_ratelimit_bytes: u64,
}

} // verus!
