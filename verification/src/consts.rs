//! Register offsets, bit masks and device identifiers of the e1000 family.
use vstd::prelude::*;

verus! {

// ---------------------------------------------------------------- registers
pub const E1000_CTRL: u32 = 0x00000;
pub const E1000_CTRL_DUP: u32 = 0x00004;
pub const E1000_STATUS: u32 = 0x00008;
pub const E1000_EECD: u32 = 0x00010;
pub const E1000_CTRL_EXT: u32 = 0x00018;
pub const E1000_MDIC: u32 = 0x00020;
pub const E1000_FCAL: u32 = 0x00028;
pub const E1000_FCAH: u32 = 0x0002C;
pub const E1000_FCT: u32 = 0x00030;
pub const E1000_KMRNCTRLSTA: u32 = 0x00034;
pub const E1000_VET: u32 = 0x00038;
pub const E1000_ICR: u32 = 0x000C0;
pub const E1000_ITR: u32 = 0x000C4;
pub const E1000_ICS: u32 = 0x000C8;
pub const E1000_IMS: u32 = 0x000D0;
pub const E1000_IMC: u32 = 0x000D8;
pub const E1000_RCTL: u32 = 0x00100;
pub const E1000_FCTTV: u32 = 0x00170;
pub const E1000_TCTL: u32 = 0x00400;
pub const E1000_TIPG: u32 = 0x00410;
pub const E1000_LEDCTL: u32 = 0x00E00;
pub const E1000_IOSFPC: u32 = 0x00F28;
pub const E1000_PBA: u32 = 0x01000;
pub const E1000_FCRTL: u32 = 0x02160;
pub const E1000_FCRTH: u32 = 0x02168;
pub const E1000_RDTR: u32 = 0x02820;
pub const E1000_RADV: u32 = 0x0282C;
pub const E1000_TIDV: u32 = 0x03820;
pub const E1000_TADV: u32 = 0x0382C;
pub const E1000_RXCSUM: u32 = 0x05000;
pub const E1000_RFCTL: u32 = 0x05008;
pub const E1000_MTA: u32 = 0x05200;
pub const E1000_VFTA: u32 = 0x05600;
pub const E1000_WUC: u32 = 0x05800;
pub const E1000_WUFC: u32 = 0x05808;
pub const E1000_MANC: u32 = 0x05820;
pub const E1000_MANC2H: u32 = 0x05860;
pub const E1000_GCR: u32 = 0x05B00;
pub const E1000_FACTPS: u32 = 0x05B30;
pub const E1000_FWSM: u32 = 0x05B54;

// statistics registers (clear on read)
pub const E1000_CRCERRS: u32 = 0x04000;
pub const E1000_ALGNERRC: u32 = 0x04004;
pub const E1000_SYMERRS: u32 = 0x04008;
pub const E1000_RXERRC: u32 = 0x0400C;
pub const E1000_MPC: u32 = 0x04010;
pub const E1000_SCC: u32 = 0x04014;
pub const E1000_ECOL: u32 = 0x04018;
pub const E1000_MCC: u32 = 0x0401C;
pub const E1000_LATECOL: u32 = 0x04020;
pub const E1000_COLC: u32 = 0x04028;
pub const E1000_DC: u32 = 0x04030;
pub const E1000_TNCRS: u32 = 0x04034;
pub const E1000_SEC: u32 = 0x04038;
pub const E1000_CEXTERR: u32 = 0x0403C;
pub const E1000_RLEC: u32 = 0x04040;
pub const E1000_XONRXC: u32 = 0x04048;
pub const E1000_XONTXC: u32 = 0x0404C;
pub const E1000_XOFFRXC: u32 = 0x04050;
pub const E1000_XOFFTXC: u32 = 0x04054;
pub const E1000_FCRUC: u32 = 0x04058;
pub const E1000_PRC64: u32 = 0x0405C;
pub const E1000_PRC127: u32 = 0x04060;
pub const E1000_PRC255: u32 = 0x04064;
pub const E1000_PRC511: u32 = 0x04068;
pub const E1000_PRC1023: u32 = 0x0406C;
pub const E1000_PRC1522: u32 = 0x04070;
pub const E1000_GPRC: u32 = 0x04074;
pub const E1000_BPRC: u32 = 0x04078;
pub const E1000_MPRC: u32 = 0x0407C;
pub const E1000_GPTC: u32 = 0x04080;
pub const E1000_GORCL: u32 = 0x04088;
pub const E1000_GORCH: u32 = 0x0408C;
pub const E1000_GOTCL: u32 = 0x04090;
pub const E1000_GOTCH: u32 = 0x04094;
pub const E1000_RNBC: u32 = 0x040A0;
pub const E1000_RUC: u32 = 0x040A4;
pub const E1000_RFC: u32 = 0x040A8;
pub const E1000_ROC: u32 = 0x040AC;
pub const E1000_RJC: u32 = 0x040B0;
pub const E1000_MGTPRC: u32 = 0x040B4;
pub const E1000_MGTPDC: u32 = 0x040B8;
pub const E1000_MGTPTC: u32 = 0x040BC;
pub const E1000_TORL: u32 = 0x040C0;
pub const E1000_TORH: u32 = 0x040C4;
pub const E1000_TOTL: u32 = 0x040C8;
pub const E1000_TOTH: u32 = 0x040CC;
pub const E1000_TPR: u32 = 0x040D0;
pub const E1000_TPT: u32 = 0x040D4;
pub const E1000_PTC64: u32 = 0x040D8;
pub const E1000_PTC127: u32 = 0x040DC;
pub const E1000_PTC255: u32 = 0x040E0;
pub const E1000_PTC511: u32 = 0x040E4;
pub const E1000_PTC1023: u32 = 0x040E8;
pub const E1000_PTC1522: u32 = 0x040EC;
pub const E1000_MPTC: u32 = 0x040F0;
pub const E1000_BPTC: u32 = 0x040F4;
pub const E1000_TSCTC: u32 = 0x040F8;
pub const E1000_TSCTFC: u32 = 0x040FC;
pub const E1000_IAC: u32 = 0x04100;
pub const E1000_ICRXPTC: u32 = 0x04104;
pub const E1000_ICRXATC: u32 = 0x04108;
pub const E1000_ICTXPTC: u32 = 0x0410C;
pub const E1000_ICTXATC: u32 = 0x04110;
pub const E1000_ICTXQEC: u32 = 0x04118;
pub const E1000_ICTXQMTC: u32 = 0x0411C;
pub const E1000_ICRXDMTC: u32 = 0x04120;
pub const E1000_ICRXOC: u32 = 0x04124;

// ------------------------------------------------------------- CTRL / STATUS
pub const E1000_CTRL_GIO_MASTER_DISABLE: u32 = 0x00000004;
pub const E1000_CTRL_RST: u32 = 0x04000000;
pub const E1000_CTRL_RFCE: u32 = 0x08000000;
pub const E1000_CTRL_TFCE: u32 = 0x10000000;
pub const E1000_CTRL_VME: u32 = 0x40000000;
pub const E1000_CTRL_PHY_RST: u32 = 0x80000000;
pub const E1000_CTRL_EXT_DRV_LOAD: u32 = 0x10000000;
pub const E1000_CTRL_EXT_LINK_MODE_GMII: u32 = 0x00000000;
pub const E1000_THSTAT_LINK_THROTTLE: u32 = 0x00000002;

pub const E1000_STATUS_FD: u32 = 0x00000001;
pub const E1000_STATUS_LU: u32 = 0x00000002;
pub const E1000_STATUS_FUNC_MASK: u32 = 0x0000000C;
pub const E1000_STATUS_FUNC_SHIFT: u32 = 2;
pub const E1000_STATUS_FUNC_1: u32 = 0x00000004;
pub const E1000_STATUS_SPEED_10: u32 = 0x00000000;
pub const E1000_STATUS_SPEED_100: u32 = 0x00000040;
pub const E1000_STATUS_SPEED_1000: u32 = 0x00000080;
pub const E1000_STATUS_PCI66: u32 = 0x00000800;
pub const E1000_STATUS_BUS64: u32 = 0x00001000;
pub const E1000_STATUS_PCIX_MODE: u32 = 0x00002000;
pub const E1000_STATUS_PCIX_SPEED: u32 = 0x0000C000;
pub const E1000_STATUS_PCIX_SPEED_66: u32 = 0x00000000;
pub const E1000_STATUS_PCIX_SPEED_100: u32 = 0x00004000;
pub const E1000_STATUS_PCIX_SPEED_133: u32 = 0x00008000;
pub const E1000_STATUS_GIO_MASTER_ENABLE: u32 = 0x00080000;

// ------------------------------------------------------------------ EEPROM
pub const E1000_EECD_SK: u32 = 0x00000001;
pub const E1000_EECD_CS: u32 = 0x00000002;
pub const E1000_EECD_DI: u32 = 0x00000004;
pub const E1000_EECD_DO: u32 = 0x00000008;
pub const E1000_EECD_REQ: u32 = 0x00000040;
pub const E1000_EECD_GNT: u32 = 0x00000080;
pub const E1000_EECD_SIZE: u32 = 0x00000200;
pub const E1000_EECD_AUTO_RD: u32 = 0x00000200;
pub const E1000_NVM_GRANT_ATTEMPTS: u32 = 1000;
pub const NVM_ID_LED_SETTINGS: u16 = 0x0004;
pub const NVM_INIT_CONTROL2_REG: u16 = 0x000F;
pub const NVM_INIT_CONTROL3_PORT_B: u16 = 0x0014;
pub const NVM_INIT_CONTROL3_PORT_A: u16 = 0x0024;
pub const NVM_CHECKSUM_REG: u16 = 0x003F;
pub const NVM_SUM: u16 = 0xBABA;
pub const NVM_READ_OPCODE_MICROWIRE: u16 = 0x6;
pub const AUTO_READ_DONE_TIMEOUT: u32 = 10;

// --------------------------------------------------------------------- MDIC
pub const E1000_MDIC_REG_MASK: u32 = 0x001F0000;
pub const E1000_MDIC_REG_SHIFT: u32 = 16;
pub const E1000_MDIC_PHY_SHIFT: u32 = 21;
pub const E1000_MDIC_OP_WRITE: u32 = 0x04000000;
pub const E1000_MDIC_OP_READ: u32 = 0x08000000;
pub const E1000_MDIC_READY: u32 = 0x10000000;
pub const E1000_MDIC_ERROR: u32 = 0x40000000;
pub const E1000_GEN_POLL_TIMEOUT: u32 = 640;
pub const E1000_KMRNCTRLSTA_OFFSET: u32 = 0x001F0000;
pub const E1000_KMRNCTRLSTA_OFFSET_SHIFT: u32 = 16;
pub const E1000_KMRNCTRLSTA_REN: u32 = 0x00200000;

// -------------------------------------------------------------- PHY layout
pub const MAX_PHY_REG_ADDRESS: u32 = 0x1F;
pub const MAX_PHY_MULTI_PAGE_REG: u32 = 0xF;
pub const PHY_PAGE_SHIFT: u32 = 5;
pub const PHY_UPPER_SHIFT: u32 = 21;
pub const IGP_PAGE_SHIFT: u32 = 5;
pub const IGP01E1000_PHY_PAGE_SELECT: u32 = 0x1F;
pub const BM_WUC_PAGE: u16 = 800;
pub const BM_PORT_CTRL_PAGE: u32 = 769;
pub const HV_INTC_FC_PAGE_START: u32 = 768;
pub const BM_WUC_ADDRESS_OPCODE: u32 = 0x11;
pub const BM_WUC_DATA_OPCODE: u32 = 0x12;
pub const BM_WUC_ENABLE_REG: u32 = 17;
pub const BM_WUC_ENABLE_BIT: u16 = 0x0004;
pub const BM_WUC_HOST_WU_BIT: u16 = 0x0010;
pub const BM_WUC_ME_WU_BIT: u16 = 0x0020;

pub const PHY_CONTROL: u32 = 0x00;
pub const PHY_STATUS: u32 = 0x01;
pub const PHY_ID1: u32 = 0x02;
pub const PHY_ID2: u32 = 0x03;
pub const PHY_AUTONEG_ADV: u32 = 0x04;
pub const PHY_LP_ABILITY: u32 = 0x05;
pub const PHY_1000T_CTRL: u32 = 0x09;
pub const PHY_1000T_STATUS: u32 = 0x0A;
pub const PHY_REVISION_MASK: u32 = 0xFFFFFFF0;
pub const PHY_AUTO_NEG_LIMIT: u32 = 45;
pub const COPPER_LINK_UP_LIMIT: u32 = 10;

pub const MII_CR_RESTART_AUTO_NEG: u16 = 0x0200;
pub const MII_CR_AUTO_NEG_EN: u16 = 0x1000;
pub const MII_SR_LINK_STATUS: u16 = 0x0004;
pub const MII_SR_AUTONEG_COMPLETE: u16 = 0x0020;
pub const NWAY_AR_10T_HD_CAPS: u16 = 0x0020;
pub const NWAY_AR_10T_FD_CAPS: u16 = 0x0040;
pub const NWAY_AR_100TX_HD_CAPS: u16 = 0x0080;
pub const NWAY_AR_100TX_FD_CAPS: u16 = 0x0100;
pub const NWAY_AR_PAUSE: u16 = 0x0400;
pub const NWAY_AR_ASM_DIR: u16 = 0x0800;
pub const NWAY_LPAR_PAUSE: u16 = 0x0400;
pub const NWAY_LPAR_ASM_DIR: u16 = 0x0800;
pub const CR_1000T_HD_CAPS: u16 = 0x0100;
pub const CR_1000T_FD_CAPS: u16 = 0x0200;
pub const CR_1000T_MS_VALUE: u16 = 0x0800;
pub const CR_1000T_MS_ENABLE: u16 = 0x1000;
pub const SR_1000T_REMOTE_RX_STATUS: u16 = 0x1000;
pub const SR_1000T_LOCAL_RX_STATUS: u16 = 0x2000;
pub const SR_1000T_MS_CONFIG_FAULT: u16 = 0x8000;

pub const ADVERTISE_10_HALF: u16 = 0x0001;
pub const ADVERTISE_10_FULL: u16 = 0x0002;
pub const ADVERTISE_100_HALF: u16 = 0x0004;
pub const ADVERTISE_100_FULL: u16 = 0x0008;
pub const ADVERTISE_1000_HALF: u16 = 0x0010;
pub const ADVERTISE_1000_FULL: u16 = 0x0020;
pub const AUTONEG_ADVERTISE_SPEED_DEFAULT: u16 = 0x002F;
pub const AUTONEG_ADV_DEFAULT: u16 = 0x002F;

pub const M88E1000_PHY_SPEC_CTRL: u32 = 0x10;
pub const M88E1000_PHY_SPEC_STATUS: u32 = 0x11;
pub const M88E1000_PSCR_POLARITY_REVERSAL: u16 = 0x0002;
pub const M88E1000_PSSR_REV_POLARITY: u16 = 0x0002;
pub const M88E1000_PSSR_DOWNSHIFT: u16 = 0x0020;
pub const M88E1000_PSSR_MDIX: u16 = 0x0040;
pub const M88E1000_PSSR_SPEED: u16 = 0xC000;
pub const M88E1000_PSSR_1000MBS: u16 = 0x8000;
pub const E1000_CABLE_LENGTH_UNDEFINED: u16 = 0xFF;

pub const I82577_CFG_REG: u32 = 22;
pub const I82577_CFG_ASSERT_CRS_ON_TX: u16 = 0x8000;
pub const I82577_CFG_ENABLE_DOWNSHIFT: u16 = 0x0C00;
pub const I82577_PHY_CTRL_2: u32 = 18;
pub const I82577_PHY_CTRL2_MANUAL_MDIX: u16 = 0x0200;
pub const I82577_PHY_CTRL2_AUTO_MDI_MDIX: u16 = 0x0400;
pub const I82577_PHY_CTRL2_MDIX_CFG_MASK: u16 = 0x0600;
pub const I82577_PHY_STATUS_2: u32 = 26;
pub const I82577_PHY_STATUS2_REV_POLARITY: u16 = 0x0400;
pub const I82577_PHY_DIAG_STATUS: u32 = 31;
pub const I82577_DSTATUS_CABLE_LENGTH: u16 = 0x03FC;
pub const I82577_DSTATUS_CABLE_LENGTH_SHIFT: u16 = 2;
pub const I82577_ADDR_REG: u32 = 16;
pub const I82578_ADDR_REG: u32 = 29;
pub const MII_CR_RESET: u16 = 0x8000;
pub const MII_CR_FULL_DUPLEX: u16 = 0x0100;
pub const MII_CR_SPEED_1000: u16 = 0x0040;
pub const MII_CR_SPEED_100: u16 = 0x2000;
pub const E1000_ALL_HALF_DUPLEX: u8 = 0x05;
pub const E1000_ALL_100_SPEED: u8 = 0x0C;
pub const E1000_CTRL_FD: u32 = 0x00000001;
pub const E1000_CTRL_ASDE: u32 = 0x00000020;
pub const E1000_CTRL_SPD_SEL: u32 = 0x00000300;
pub const E1000_CTRL_SPD_100: u32 = 0x00000100;
pub const E1000_CTRL_SPD_1000: u32 = 0x00000200;
pub const E1000_CTRL_FRCSPD: u32 = 0x00000800;
pub const E1000_CTRL_FRCDPX: u32 = 0x00001000;
pub const PHY_FORCE_LIMIT: u32 = 20;
pub const E1000_LEDCTL_LED0_MODE_MASK: u32 = 0x0000000F;
pub const E1000_LEDCTL_LED0_IVRT: u32 = 0x00000040;
pub const E1000_LEDCTL_LED0_BLINK: u32 = 0x00000080;
pub const I82577_PHY_STATUS2_MDIX: u16 = 0x0800;
pub const I82577_PHY_STATUS2_SPEED_MASK: u16 = 0x0300;
pub const I82577_PHY_STATUS2_SPEED_1000MBPS: u16 = 0x0200;

// PHY identifiers
pub const M88E1000_E_PHY_ID: u32 = 0x01410C50;
pub const M88E1000_I_PHY_ID: u32 = 0x01410C30;
pub const M88E1011_I_PHY_ID: u32 = 0x01410C20;
pub const IGP01E1000_I_PHY_ID: u32 = 0x02A80380;
pub const M88E1111_I_PHY_ID: u32 = 0x01410CC0;
pub const M88E1543_E_PHY_ID: u32 = 0x01410EA0;
pub const M88E1512_E_PHY_ID: u32 = 0x01410DD0;
pub const M88E1112_E_PHY_ID: u32 = 0x01410C90;
pub const I347AT4_E_PHY_ID: u32 = 0x01410DC0;
pub const M88E1340M_E_PHY_ID: u32 = 0x01410DF0;
pub const GG82563_E_PHY_ID: u32 = 0x01410CA0;
pub const IGP03E1000_E_PHY_ID: u32 = 0x02A80390;
pub const IFE_E_PHY_ID: u32 = 0x02A80330;
pub const IFE_PLUS_E_PHY_ID: u32 = 0x02A80320;
pub const IFE_C_E_PHY_ID: u32 = 0x02A80310;
pub const BME1000_E_PHY_ID: u32 = 0x01410CB0;
pub const BME1000_E_PHY_ID_R2: u32 = 0x01410CB1;
pub const I82577_E_PHY_ID: u32 = 0x01540050;
pub const I82578_E_PHY_ID: u32 = 0x004DD040;
pub const I82579_E_PHY_ID: u32 = 0x01540090;
pub const I217_E_PHY_ID: u32 = 0x015400A0;
pub const I82580_I_PHY_ID: u32 = 0x015403A0;
pub const I210_I_PHY_ID: u32 = 0x01410C00;

// ---------------------------------------------------------------- LED / RAR
pub const E1000_LEDCTL_MODE_LED_ON: u32 = 0xE;
pub const E1000_LEDCTL_MODE_LED_OFF: u32 = 0xF;
pub const ID_LED_RESERVED_0000: u16 = 0x0000;
pub const ID_LED_RESERVED_FFFF: u16 = 0xFFFF;
pub const ID_LED_DEF1_DEF2: u16 = 0x1;
pub const ID_LED_DEF1_ON2: u16 = 0x2;
pub const ID_LED_DEF1_OFF2: u16 = 0x3;
pub const ID_LED_ON1_DEF2: u16 = 0x4;
pub const ID_LED_ON1_ON2: u16 = 0x5;
pub const ID_LED_ON1_OFF2: u16 = 0x6;
pub const ID_LED_OFF1_DEF2: u16 = 0x7;
pub const ID_LED_OFF1_ON2: u16 = 0x8;
pub const ID_LED_OFF1_OFF2: u16 = 0x9;
pub const ID_LED_DEFAULT: u16 = 0x8911;
pub const E1000_RAH_AV: u32 = 0x80000000;
pub const E1000_RAL_MAC_ADDR_LEN: u32 = 4;
pub const E1000_RAH_MAC_ADDR_LEN: u32 = 2;
pub const E1000_RAR_ENTRIES: u16 = 15;
pub const E1000_FUNC_1: u16 = 1;

// --------------------------------------------------------------- RCTL / TCTL
pub const E1000_RCTL_RST: u32 = 0x00000001;
pub const E1000_RCTL_EN: u32 = 0x00000002;
pub const E1000_RCTL_SBP: u32 = 0x00000004;
pub const E1000_RCTL_UPE: u32 = 0x00000008;
pub const E1000_RCTL_MPE: u32 = 0x00000010;
pub const E1000_RCTL_LPE: u32 = 0x00000020;
pub const E1000_RCTL_LBM_NO: u32 = 0x00000000;
pub const E1000_RCTL_RDMTS_HALF: u32 = 0x00000000;
pub const E1000_RCTL_RDMTS_HEX: u32 = 0x00010000;
pub const E1000_RCTL_MO_SHIFT: u32 = 12;
pub const E1000_RCTL_BAM: u32 = 0x00008000;
pub const E1000_RCTL_SZ_2048: u32 = 0x00000000;
pub const E1000_RCTL_VFE: u32 = 0x00040000;
pub const E1000_TCTL_EN: u32 = 0x00000002;
pub const E1000_TCTL_PSP: u32 = 0x00000008;
pub const E1000_TCTL_CT: u32 = 0x00000ff0;
pub const E1000_TCTL_COLD: u32 = 0x003ff000;
pub const E1000_TCTL_RTLC: u32 = 0x01000000;
pub const E1000_CT_SHIFT: u32 = 4;
pub const E1000_COLD_SHIFT: u32 = 12;
pub const E1000_COLLISION_THRESHOLD: u32 = 15;
pub const E1000_COLLISION_DISTANCE: u32 = 63;
pub const E1000_TXDCTL_GRAN: u32 = 0x01000000;
pub const E1000_TXDCTL_WTHRESH: u32 = 0x003F0000;
pub const E1000_TXDCTL_FULL_TX_DESC_WB: u32 = 0x01010000;
pub const DEFAULT_82543_TIPG_IPGT_COPPER: u32 = 8;
pub const DEFAULT_82543_TIPG_IPGR1: u32 = 8;
pub const DEFAULT_82543_TIPG_IPGR2: u32 = 6;
pub const E1000_TIPG_IPGR1_SHIFT: u32 = 10;
pub const E1000_TIPG_IPGR2_SHIFT: u32 = 20;
pub const E1000_TARC0_CB_MULTIQ_3_REQ: u32 = 0x30000000;
pub const E1000_TARC0_CB_MULTIQ_2_REQ: u32 = 0x20000000;
pub const E1000_RFCTL_EXTEN: u32 = 0x00008000;
pub const E1000_RXCSUM_IPOFL: u32 = 0x00000100;
pub const E1000_RXCSUM_TUOFL: u32 = 0x00000200;
pub const E1000_RXCSUM_CRCOFL: u32 = 0x00000800;
pub const E1000_RXCSUM_IPPCSE: u32 = 0x00001000;

// ------------------------------------------------------------- descriptors
pub const E1000_TXD_CMD_EOP: u32 = 0x01000000;
pub const E1000_TXD_CMD_IFCS: u32 = 0x02000000;
pub const E1000_TXD_CMD_RS: u32 = 0x08000000;
pub const E1000_TXD_CMD_DEXT: u32 = 0x20000000;
pub const E1000_TXD_CMD_VLE: u32 = 0x40000000;
pub const E1000_TXD_CMD_IDE: u32 = 0x80000000;
pub const E1000_TXD_DTYP_D: u32 = 0x00100000;
pub const E1000_TXD_POPTS_IXSM: u32 = 0x01;
pub const E1000_TXD_POPTS_TXSM: u32 = 0x02;
pub const E1000_TXD_CMD_TCP: u32 = 0x01000000;
pub const E1000_TXD_CMD_IP: u32 = 0x02000000;
pub const E1000_TXD_CMD_TSE: u32 = 0x04000000;
pub const E1000_TXD_STAT_DD: u8 = 0x01;
pub const E1000_RXD_STAT_DD: u32 = 0x01;
pub const E1000_RXD_STAT_EOP: u32 = 0x02;
pub const E1000_RXD_STAT_IXSM: u32 = 0x04;
pub const E1000_RXD_STAT_VP: u32 = 0x08;
pub const E1000_RXD_STAT_UDPCS: u32 = 0x10;
pub const E1000_RXD_STAT_TCPCS: u32 = 0x20;
pub const E1000_RXD_STAT_IPCS: u32 = 0x40;
pub const E1000_RXD_ERR_TCPE: u32 = 0x20;
pub const E1000_RXD_ERR_IPE: u32 = 0x40;
pub const E1000_RXD_ERR_FRAME_ERR_MASK: u32 = 0x97;
pub const E1000_RXDEXT_STATERR_TCPE: u32 = 0x20000000;
pub const E1000_RXDEXT_STATERR_IPE: u32 = 0x40000000;
pub const E1000_RXDEXT_ERR_FRAME_ERR_MASK: u32 = 0x97000000;
pub const E1000_RXDADV_RSSTYPE_MASK: u32 = 0x0000000F;
pub const E1000_RXDADV_RSSTYPE_IPV4_TCP: u32 = 0x00000001;
pub const E1000_RXDADV_RSSTYPE_IPV4: u32 = 0x00000002;
pub const E1000_RXDADV_RSSTYPE_IPV6_TCP: u32 = 0x00000003;
pub const E1000_RXDADV_RSSTYPE_IPV6_EX: u32 = 0x00000004;
pub const E1000_RXDADV_RSSTYPE_IPV6: u32 = 0x00000005;
pub const E1000_RXDADV_RSSTYPE_IPV6_TCP_EX: u32 = 0x00000006;
pub const M_HASHTYPE_OPAQUE: u32 = 63;
pub const M_HASHTYPE_RSS_IPV4: u32 = 0x81;
pub const M_HASHTYPE_RSS_TCP_IPV4: u32 = 0x82;
pub const M_HASHTYPE_RSS_IPV6: u32 = 0x83;
pub const M_HASHTYPE_RSS_TCP_IPV6: u32 = 0x84;
pub const M_HASHTYPE_RSS_IPV6_EX: u32 = 0x85;
pub const M_HASHTYPE_RSS_TCP_IPV6_EX: u32 = 0x86;
pub const QIDX_INVALID: u16 = 0xFFFF;
pub const TSO_WORKAROUND: u64 = 4;

// ------------------------------------------------------ checksum offloads
pub const CSUM_IP: u32 = 0x00000001;
pub const CSUM_IP_UDP: u32 = 0x00000002;
pub const CSUM_IP_TCP: u32 = 0x00000004;
pub const CSUM_UDP: u32 = 0x00000002;
pub const CSUM_TCP: u32 = 0x00000004;
pub const CSUM_IP_TSO: u32 = 0x00000010;
pub const CSUM_TSO: u32 = 0x00001010;
pub const CSUM_IP_CHECKED: u32 = 0x01000000;
pub const CSUM_IP_VALID: u32 = 0x02000000;
pub const CSUM_PSEUDO_HDR: u32 = 0x04000000;
pub const CSUM_DATA_VALID: u32 = 0x08000000;
pub const EM_CSUM_OFFLOAD: u32 = 0x00000007;
pub const M_VLANTAG: u8 = 0x80;
pub const IPI_TX_INTR: u16 = 0x1;
/// Offset of the checksum field inside an IPv4 header.
pub const IP_SUM_OFFSET: u8 = 10;
/// Offset of the checksum field inside a TCP header.
pub const TCP_SUM_OFFSET: u8 = 16;
/// Offset of the checksum field inside a UDP header.
pub const UDP_SUM_OFFSET: u8 = 6;

// ---------------------------------------------------------- interrupts etc.
pub const E1000_ICR_LSC: u32 = 0x00000004;
pub const E1000_ICR_RXSEQ: u32 = 0x00000008;
pub const E1000_ICR_RXO: u32 = 0x00000040;
pub const E1000_ICR_INT_ASSERTED: u32 = 0x80000000;
pub const E1000_ICS_LSC: u32 = 0x00000004;
pub const E1000_IMS_LSC: u32 = 0x00000004;
pub const EM_MSIX_LINK: u32 = 0x01000000;
pub const IMS_ENABLE_MASK: u32 = 0x0000009D;
pub const FILTER_STRAY: i32 = 0x01;
pub const FILTER_HANDLED: i32 = 0x02;
pub const FILTER_SCHEDULE_THREAD: i32 = 0x04;

// ------------------------------------------------------------- management
pub const E1000_MANC_SMBUS_EN: u32 = 0x00000001;
pub const E1000_MANC_ASF_EN: u32 = 0x00000002;
pub const E1000_MANC_ARP_EN: u32 = 0x00002000;
pub const E1000_MANC_RCV_TCO_EN: u32 = 0x00020000;
pub const E1000_MANC_EN_MNG2HOST: u32 = 0x00200000;
pub const E1000_FWSM_MODE_MASK: u32 = 0x0000000E;
pub const E1000_FWSM_MODE_SHIFT: u32 = 1;
pub const E1000_FACTPS_MNGCG: u32 = 0x20000000;
pub const E1000_WUC_APME: u32 = 0x00000001;
pub const E1000_WUFC_MAG: u32 = 0x00000002;
pub const E1000_WUFC_MC: u32 = 0x00000008;
pub const EM_EEPROM_APME: u32 = 0x400;

// ------------------------------------------------------------ flow control
pub const E1000_PBA_26K: u32 = 0x001A;
pub const E1000_PBA_40K: u32 = 0x0028;
pub const E1000_PBA_48K: u32 = 0x0030;
pub const EM_FC_PAUSE_TIME: u16 = 0x0680;
pub const FLOW_CONTROL_ADDRESS_LOW: u32 = 0x00C28001;
pub const FLOW_CONTROL_ADDRESS_HIGH: u32 = 0x00000100;
pub const FLOW_CONTROL_TYPE: u32 = 0x8808;
pub const E1000_FCRTL_XONE: u32 = 0x80000000;

// ------------------------------------------------------------ misc limits
pub const E1000_VLAN_FILTER_TBL_SIZE: u32 = 128;
pub const MAX_NUM_MULTICAST_ADDRESSES: u32 = 128;
pub const MASTER_DISABLE_TIMEOUT: u32 = 800;
pub const PCIE_NO_SNOOP_ALL: u32 = 0x0000003F;
pub const E1000_REVISION_2: u8 = 2;
pub const PCIE_LINK_STATUS: u32 = 0x12;
pub const PCIE_LINK_WIDTH_MASK: u16 = 0x3F0;
pub const PCIE_LINK_WIDTH_SHIFT: u16 = 4;
pub const PCIE_LINK_SPEED_MASK: u16 = 0x0F;
pub const PCIE_LINK_SPEED_2500: u16 = 0x01;
pub const PCIE_LINK_SPEED_5000: u16 = 0x02;
pub const PCI_HEADER_TYPE_REGISTER: u32 = 14;
pub const PCI_HEADER_TYPE_MULTIFUNC: u16 = 0x80;
pub const PCIR_COMMAND: u32 = 0x04;
pub const PCIR_REVID: u32 = 0x08;
pub const PCIR_CIS: u32 = 0x28;
pub const PCIR_SUBVEND_0: u32 = 0x2c;
pub const PCIR_SUBDEV_0: u32 = 0x2e;
pub const PCIR_BARS: u32 = 0x10;
pub const EM_BAR_TYPE_MASK: u32 = 0x00000001;
pub const EM_BAR_TYPE_IO: u32 = 0x00000001;
pub const EM_BAR_TYPE_FLASH: u32 = 0x0014;
pub const EM_BAR_MEM_TYPE_MASK: u32 = 0x00000006;
pub const EM_BAR_MEM_TYPE_64BIT: u32 = 0x00000004;
pub const EM_MSIX_BAR: u32 = 3;
pub const SYS_RES_MEMORY: i32 = 3;
pub const SYS_RES_IOPORT: i32 = 4;
pub const EM_MAX_SCATTER: u32 = 40;
pub const EM_TSO_SEG_SIZE: u32 = 4096;
pub const EM_TSO_SIZE: u32 = 65535;
pub const EM_DBA_ALIGN: u32 = 128;
pub const EM_SMARTSPEED_DOWNSHIFT: u32 = 3;
pub const EM_SMARTSPEED_MAX: u32 = 15;
pub const E1000_FLASH_BASE_ADDR: u32 = 0xE000;
pub const SPEED_10: u16 = 10;
pub const SPEED_100: u16 = 100;
pub const SPEED_1000: u16 = 1000;
pub const HALF_DUPLEX: u16 = 1;
pub const FULL_DUPLEX: u16 = 2;
pub const DO_AUTO_NEG: u32 = 1;
pub const AUTO_ALL_MODES: u8 = 0;
pub const MAX_INTS_PER_SEC: u32 = 8000;
pub const DEFAULT_ITR: u32 = 1000000000 / (MAX_INTS_PER_SEC * 256);

// ------------------------------------------------------- network stack
pub const ETHERMTU: u32 = 1500;
pub const ETHER_HDR_LEN: u32 = 14;
pub const ETHERNET_FCS_SIZE: u32 = 4;
pub const ETHER_ADDR_LEN: u32 = 6;
pub const ETHER_VLAN_HEADER_LEN: u32 = 18;
pub const ETHERTYPE_VLAN: u32 = 0x8100;
pub const IP_MAXPACKET: u32 = 65535;
pub const MCLBYTES: u32 = 2048;
pub const MJUMPAGESIZE: u32 = 4096;
pub const IFF_PROMISC: u32 = 0x100;
pub const IFF_ALLMULTI: u32 = 0x200;
pub const IFCAP_RXCSUM: u32 = 0x00001;
pub const IFCAP_TXCSUM: u32 = 0x00002;
pub const IFCAP_HWCSUM: u32 = 0x00003;
pub const IFCAP_VLAN_MTU: u32 = 0x00008;
pub const IFCAP_VLAN_HWTAGGING: u32 = 0x00010;
pub const IFCAP_VLAN_HWCSUM: u32 = 0x00080;
pub const IFCAP_TSO4: u32 = 0x00100;
pub const IFCAP_LRO: u32 = 0x00400;
pub const IFCAP_WOL_UCAST: u32 = 0x00800;
pub const IFCAP_WOL_MCAST: u32 = 0x01000;
pub const IFCAP_WOL_MAGIC: u32 = 0x02000;
pub const IFCAP_WOL: u32 = 0x03800;
pub const IFCAP_VLAN_HWFILTER: u32 = 0x10000;
pub const IFCAP_VLAN_HWTSO: u32 = 0x40000;
pub const LEM_CAPS: u32 = IFCAP_HWCSUM | IFCAP_VLAN_MTU | IFCAP_VLAN_HWTAGGING | IFCAP_VLAN_HWCSUM
    | IFCAP_WOL | IFCAP_VLAN_HWFILTER;
pub const EM_CAPS: u32 = LEM_CAPS | IFCAP_TSO4 | IFCAP_LRO | IFCAP_VLAN_HWTSO;
pub const IFM_AUTO: u32 = 0;
pub const IFM_10_T: u32 = 3;
pub const IFM_100_TX: u32 = 6;
pub const IFM_1000_T: u32 = 16;
pub const IFM_ETHER: u32 = 0x20;
pub const IFM_FDX: u32 = 0x00100000;
pub const IFM_HDX: u32 = 0x00200000;
pub const IFM_AVALID: u32 = 0x00000001;
pub const IFM_ACTIVE: u32 = 0x00000002;
pub const LINK_STATE_UNKNOWN: i32 = 0;
pub const LINK_STATE_DOWN: i32 = 1;
pub const LINK_STATE_UP: i32 = 2;

// ---------------------------------------------------------- device ids
pub const E1000_DEV_ID_82545EM_COPPER: u16 = 0x100F;
pub const E1000_DEV_ID_82545EM_FIBER: u16 = 0x1011;
pub const E1000_DEV_ID_82545GM_FIBER: u16 = 0x1027;
pub const E1000_DEV_ID_82545GM_SERDES: u16 = 0x1028;
pub const E1000_DEV_ID_82546EB_FIBER: u16 = 0x1012;
pub const E1000_DEV_ID_82546GB_FIBER: u16 = 0x107A;
pub const E1000_DEV_ID_82546GB_SERDES: u16 = 0x107B;
pub const E1000_DEV_ID_82546GB_PCIE: u16 = 0x108A;
pub const E1000_DEV_ID_82546GB_QUAD_COPPER_KSP3: u16 = 0x10B5;
pub const E1000_DEV_ID_82571EB_FIBER: u16 = 0x105F;
pub const E1000_DEV_ID_82571EB_QUAD_COPPER: u16 = 0x10A4;
pub const E1000_DEV_ID_82571EB_QUAD_FIBER: u16 = 0x10A5;
pub const E1000_DEV_ID_82571EB_QUAD_COPPER_LP: u16 = 0x10BC;
pub const E1000_DEV_ID_PCH_LPT_I217_LM: u16 = 0x153A;
pub const E1000_DEV_ID_PCH_LPT_I217_V: u16 = 0x153B;
pub const E1000_DEV_ID_PCH_LPTLP_I218_LM: u16 = 0x155A;
pub const E1000_DEV_ID_PCH_LPTLP_I218_V: u16 = 0x1559;
pub const E1000_DEV_ID_PCH_I218_LM2: u16 = 0x15A0;
pub const E1000_DEV_ID_PCH_I218_V2: u16 = 0x15A1;
pub const E1000_DEV_ID_PCH_I218_LM3: u16 = 0x15A2;
pub const E1000_DEV_ID_PCH_I218_V3: u16 = 0x15A3;
pub const E1000_DEV_ID_PCH_SPT_I219_LM: u16 = 0x156F;
pub const E1000_DEV_ID_PCH_SPT_I219_V: u16 = 0x1570;
pub const E1000_DEV_ID_PCH_SPT_I219_LM2: u16 = 0x15B7;
pub const E1000_DEV_ID_PCH_SPT_I219_V2: u16 = 0x15B8;
pub const E1000_DEV_ID_PCH_LBG_I219_LM3: u16 = 0x15B9;
pub const E1000_DEV_ID_PCH_SPT_I219_LM4: u16 = 0x15D7;
pub const E1000_DEV_ID_PCH_SPT_I219_V4: u16 = 0x15D8;
pub const E1000_DEV_ID_PCH_SPT_I219_LM5: u16 = 0x15E3;
pub const E1000_DEV_ID_PCH_SPT_I219_V5: u16 = 0x15D6;

/// The BAR-type bits of a PCI base address register value.
pub fn em_bar_type(v: u32) -> (r: u32)
    ensures
        r == v & EM_BAR_TYPE_MASK,
{
    v & EM_BAR_TYPE_MASK
}

/// The memory-type bits of a PCI base address register value.
pub fn em_bar_mem_type(v: u32) -> (r: u32)
    ensures
        r == v & EM_BAR_MEM_TYPE_MASK,
{
    v & EM_BAR_MEM_TYPE_MASK
}

/// PCI configuration offset of base address register `x`.
pub fn pcir_bar(x: u32) -> (r: u32)
    requires
        x < 0x1000_0000,
    ensures
        r == PCIR_BARS + x * 4,
{
    PCIR_BARS + x * 4
}

} // verus!
