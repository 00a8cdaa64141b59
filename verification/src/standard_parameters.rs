//! The standard parameter sets: fixed, published constants.

use vstd::prelude::*;
use vstd::array::array_as_slice;
use crate::big_endian::nat_of_be;
use crate::bignat::BigNat;
use crate::fixed_parameters::{FixedParameterGenerationParameters, FixedParameters, NumsNumber};

verus! {

/// The modulus `p` of the standard parameters of version 2.0, big-endian.
pub const STANDARD_V2_0_P: [u8; 512] = [
    0xFF, 0xFF, 0xFF, 0xFF, 0xFF, 0xFF, 0xFF, 0xFF, 0xFF, 0xFF, 0xFF, 0xFF, 0xFF, 0xFF, 0xFF, 0xFF,
    0xFF, 0xFF, 0xFF, 0xFF, 0xFF, 0xFF, 0xFF, 0xFF, 0xFF, 0xFF, 0xFF, 0xFF, 0xFF, 0xFF, 0xFF, 0xFF,
    0xB1, 0x72, 0x17, 0xF7, 0xD1, 0xCF, 0x79, 0xAB, 0xC9, 0xE3, 0xB3, 0x98, 0x03, 0xF2, 0xF6, 0xAF,
    0x40, 0xF3, 0x43, 0x26, 0x72, 0x98, 0xB6, 0x2D, 0x8A, 0x0D, 0x17, 0x5B, 0x8B, 0xAA, 0xFA, 0x2B,
    0xE7, 0xB8, 0x76, 0x20, 0x6D, 0xEB, 0xAC, 0x98, 0x55, 0x95, 0x52, 0xFB, 0x4A, 0xFA, 0x1B, 0x10,
    0xED, 0x2E, 0xAE, 0x35, 0xC1, 0x38, 0x21, 0x44, 0x27, 0x57, 0x3B, 0x29, 0x11, 0x69, 0xB8, 0x25,
    0x3E, 0x96, 0xCA, 0x16, 0x22, 0x4A, 0xE8, 0xC5, 0x1A, 0xCB, 0xDA, 0x11, 0x31, 0x7C, 0x38, 0x7E,
    0xB9, 0xEA, 0x9B, 0xC3, 0xB1, 0x36, 0x60, 0x3B, 0x25, 0x6F, 0xA0, 0xEC, 0x76, 0x57, 0xF7, 0x4B,
    0x72, 0xCE, 0x87, 0xB1, 0x9D, 0x65, 0x48, 0xCA, 0xF5, 0xDF, 0xA6, 0xBD, 0x38, 0x30, 0x32, 0x48,
    0x65, 0x5F, 0xA1, 0x87, 0x2F, 0x20, 0xE3, 0xA2, 0xDA, 0x2D, 0x97, 0xC5, 0x0F, 0x3F, 0xD5, 0xC6,
    0x07, 0xF4, 0xCA, 0x11, 0xFB, 0x5B, 0xFB, 0x90, 0x61, 0x0D, 0x30, 0xF8, 0x8F, 0xE5, 0x51, 0xA2,
    0xEE, 0x56, 0x9D, 0x6D, 0xFC, 0x1E, 0xFA, 0x15, 0x7D, 0x2E, 0x23, 0xDE, 0x14, 0x00, 0xB3, 0x96,
    0x17, 0x46, 0x07, 0x75, 0xDB, 0x89, 0x90, 0xE5, 0xC9, 0x43, 0xE7, 0x32, 0xB4, 0x79, 0xCD, 0x33,
    0xCC, 0xCC, 0x4E, 0x65, 0x93, 0x93, 0x51, 0x4C, 0x4C, 0x1A, 0x1E, 0x0B, 0xD1, 0xD6, 0x09, 0x5D,
    0x25, 0x66, 0x9B, 0x33, 0x35, 0x64, 0xA3, 0x37, 0x6A, 0x9C, 0x7F, 0x8A, 0x5E, 0x14, 0x8E, 0x82,
    0x07, 0x4D, 0xB6, 0x01, 0x5C, 0xFE, 0x7A, 0xA3, 0x0C, 0x48, 0x0A, 0x54, 0x17, 0x35, 0x0D, 0x2C,
    0x95, 0x5D, 0x51, 0x79, 0xB1, 0xE1, 0x7B, 0x9D, 0xAE, 0x31, 0x3C, 0xDB, 0x6C, 0x60, 0x6C, 0xB1,
    0x07, 0x8F, 0x73, 0x5D, 0x1B, 0x2D, 0xB3, 0x1B, 0x5F, 0x50, 0xB5, 0x18, 0x50, 0x64, 0xC1, 0x8B,
    0x4D, 0x16, 0x2D, 0xB3, 0xB3, 0x65, 0x85, 0x3D, 0x75, 0x98, 0xA1, 0x95, 0x1A, 0xE2, 0x73, 0xEE,
    0x55, 0x70, 0xB6, 0xC6, 0x8F, 0x96, 0x98, 0x34, 0x96, 0xD4, 0xE6, 0xD3, 0x30, 0xAF, 0x88, 0x9B,
    0x44, 0xA0, 0x25, 0x54, 0x73, 0x1C, 0xDC, 0x8E, 0xA1, 0x72, 0x93, 0xD1, 0x22, 0x8A, 0x4E, 0xF9,
    0x8D, 0x6F, 0x51, 0x77, 0xFB, 0xCF, 0x07, 0x55, 0x26, 0x8A, 0x5C, 0x1F, 0x95, 0x38, 0xB9, 0x82,
    0x61, 0xAF, 0xFD, 0x44, 0x6B, 0x1C, 0xA3, 0xCF, 0x5E, 0x92, 0x22, 0xB8, 0x8C, 0x66, 0xD3, 0xC5,
    0x42, 0x21, 0x83, 0xED, 0xC9, 0x94, 0x21, 0x09, 0x0B, 0xBB, 0x16, 0xFA, 0xF3, 0xD9, 0x49, 0xF2,
    0x36, 0xE0, 0x2B, 0x20, 0xCE, 0xE8, 0x86, 0xB9, 0x05, 0xC1, 0x28, 0xD5, 0x3D, 0x0B, 0xD2, 0xF9,
    0x62, 0x13, 0x63, 0x19, 0x6A, 0xF5, 0x03, 0x02, 0x00, 0x60, 0xE4, 0x99, 0x08, 0x39, 0x1A, 0x0C,
    0x57, 0x33, 0x9B, 0xA2, 0xBE, 0xBA, 0x7D, 0x05, 0x2A, 0xC5, 0xB6, 0x1C, 0xC4, 0xE9, 0x20, 0x7C,
    0xEF, 0x2F, 0x0C, 0xE2, 0xD7, 0x37, 0x39, 0x58, 0xD7, 0x62, 0x26, 0x58, 0x90, 0x44, 0x57, 0x44,
    0xFB, 0x5F, 0x2D, 0xA4, 0xB7, 0x51, 0x00, 0x58, 0x92, 0xD3, 0x56, 0x89, 0x0D, 0xEF, 0xE9, 0xCA,
    0xD9, 0xB9, 0xD4, 0xB7, 0x13, 0xE0, 0x61, 0x62, 0xA2, 0xD8, 0xFD, 0xD0, 0xDF, 0x2F, 0xD6, 0x08,
    0xFF, 0xFF, 0xFF, 0xFF, 0xFF, 0xFF, 0xFF, 0xFF, 0xFF, 0xFF, 0xFF, 0xFF, 0xFF, 0xFF, 0xFF, 0xFF,
    0xFF, 0xFF, 0xFF, 0xFF, 0xFF, 0xFF, 0xFF, 0xFF, 0xFF, 0xFF, 0xFF, 0xFF, 0xFF, 0xFF, 0xFF, 0xFF,
];

/// The subgroup order `q` of the standard parameters of version 2.0, big-endian.
pub const STANDARD_V2_0_Q: [u8; 32] = [
    0xFF, 0xFF, 0xFF, 0xFF, 0xFF, 0xFF, 0xFF, 0xFF, 0xFF, 0xFF, 0xFF, 0xFF, 0xFF, 0xFF, 0xFF, 0xFF,
    0xFF, 0xFF, 0xFF, 0xFF, 0xFF, 0xFF, 0xFF, 0xFF, 0xFF, 0xFF, 0xFF, 0xFF, 0xFF, 0xFF, 0xFF, 0x43,
];

/// The cofactor `r` of the standard parameters of version 2.0, big-endian.
pub const STANDARD_V2_0_R: [u8; 481] = [
    0x01, 0x00, 0x00, 0x00, 0x00, 0x00, 0x00, 0x00, 0x00, 0x00, 0x00, 0x00, 0x00, 0x00, 0x00, 0x00,
    0x00, 0x00, 0x00, 0x00, 0x00, 0x00, 0x00, 0x00, 0x00, 0x00, 0x00, 0x00, 0x00, 0x00, 0x00, 0x00,
    0xBC, 0xB1, 0x72, 0x17, 0xF7, 0xD1, 0xCF, 0x79, 0xAB, 0xC9, 0xE3, 0xB3, 0x98, 0x03, 0xF2, 0xF6,
    0xAF, 0x40, 0xF3, 0x43, 0x26, 0x72, 0x98, 0xB6, 0x2D, 0x8A, 0x0D, 0x17, 0x5B, 0x8B, 0xAB, 0x85,
    0x7A, 0xE8, 0xF4, 0x28, 0x16, 0x54, 0x18, 0x80, 0x6C, 0x62, 0xB0, 0xEA, 0x36, 0x35, 0x5A, 0x3A,
    0x73, 0xE0, 0xC7, 0x41, 0x98, 0x5B, 0xF6, 0xA0, 0xE3, 0x13, 0x01, 0x79, 0xBF, 0x2F, 0x0B, 0x43,
    0xE3, 0x3A, 0xD8, 0x62, 0x92, 0x38, 0x61, 0xB8, 0xC9, 0xF7, 0x68, 0xC4, 0x16, 0x95, 0x19, 0x60,
    0x0B, 0xAD, 0x06, 0x09, 0x3F, 0x96, 0x4B, 0x27, 0xE0, 0x2D, 0x86, 0x83, 0x12, 0x31, 0xA9, 0x16,
    0x0D, 0xE4, 0x8F, 0x4D, 0xA5, 0x3D, 0x8A, 0xB5, 0xE6, 0x9E, 0x38, 0x6B, 0x69, 0x4B, 0xEC, 0x1A,
    0xE7, 0x22, 0xD4, 0x75, 0x79, 0x24, 0x9D, 0x54, 0x24, 0x76, 0x7C, 0x5C, 0x33, 0xB9, 0x15, 0x1E,
    0x07, 0xC5, 0xC1, 0x1D, 0x10, 0x6A, 0xC4, 0x46, 0xD3, 0x30, 0xB4, 0x7D, 0xB5, 0x9D, 0x35, 0x2E,
    0x47, 0xA5, 0x31, 0x57, 0xDE, 0x04, 0x46, 0x19, 0x00, 0xF6, 0xFE, 0x36, 0x0D, 0xB8, 0x97, 0xDF,
    0x53, 0x16, 0xD8, 0x7C, 0x94, 0xAE, 0x71, 0xDA, 0xD0, 0xBE, 0x84, 0xB6, 0x47, 0xC4, 0xBC, 0xF8,
    0x18, 0xC2, 0x3A, 0x2D, 0x4E, 0xBB, 0x53, 0xC7, 0x02, 0xA5, 0xC8, 0x06, 0x2D, 0x19, 0xF5, 0xE9,
    0xB5, 0x03, 0x3A, 0x94, 0xF7, 0xFF, 0x73, 0x2F, 0x54, 0x12, 0x97, 0x12, 0x86, 0x9D, 0x97, 0xB8,
    0xC9, 0x6C, 0x41, 0x29, 0x21, 0xA9, 0xD8, 0x67, 0x97, 0x70, 0xF4, 0x99, 0xA0, 0x41, 0xC2, 0x97,
    0xCF, 0xF7, 0x9D, 0x4C, 0x91, 0x49, 0xEB, 0x6C, 0xAF, 0x67, 0xB9, 0xEA, 0x3D, 0xC5, 0x63, 0xD9,
    0x65, 0xF3, 0xAA, 0xD1, 0x37, 0x7F, 0xF2, 0x2D, 0xE9, 0xC3, 0xE6, 0x20, 0x68, 0xDD, 0x0E, 0xD6,
    0x15, 0x1C, 0x37, 0xB4, 0xF7, 0x46, 0x34, 0xC2, 0xBD, 0x09, 0xDA, 0x91, 0x2F, 0xD5, 0x99, 0xF4,
    0x33, 0x3A, 0x8D, 0x2C, 0xC0, 0x05, 0x62, 0x7D, 0xCA, 0x37, 0xBA, 0xD4, 0x3E, 0x64, 0xA3, 0x96,
    0x31, 0x19, 0xC0, 0xBF, 0xE3, 0x48, 0x10, 0xA2, 0x1E, 0xE7, 0xCF, 0xC4, 0x21, 0xD5, 0x33, 0x98,
    0xCB, 0xC7, 0xA9, 0x5B, 0x3B, 0xF5, 0x85, 0xE5, 0xA0, 0x4B, 0x79, 0x0E, 0x2F, 0xE1, 0xFE, 0x9B,
    0xC2, 0x64, 0xFD, 0xA8, 0x10, 0x9F, 0x64, 0x54, 0xA0, 0x82, 0xF5, 0xEF, 0xB2, 0xF3, 0x7E, 0xA2,
    0x37, 0xAA, 0x29, 0xDF, 0x32, 0x0D, 0x6E, 0xA8, 0x60, 0xC4, 0x1A, 0x90, 0x54, 0xCC, 0xD2, 0x48,
    0x76, 0xC6, 0x25, 0x3F, 0x66, 0x7B, 0xFB, 0x01, 0x39, 0xB5, 0x53, 0x1F, 0xF3, 0x01, 0x89, 0x96,
    0x12, 0x02, 0xFD, 0x2B, 0x0D, 0x55, 0xA7, 0x52, 0x72, 0xC7, 0xFD, 0x73, 0x34, 0x3F, 0x78, 0x99,
    0xBC, 0xA0, 0xB3, 0x6A, 0x4C, 0x47, 0x0A, 0x64, 0xA0, 0x09, 0x24, 0x4C, 0x84, 0xE7, 0x7C, 0xEB,
    0xC9, 0x24, 0x17, 0xD5, 0xBB, 0x13, 0xBF, 0x18, 0x16, 0x7D, 0x80, 0x33, 0xEB, 0x6C, 0x4D, 0xD7,
    0x87, 0x9F, 0xD4, 0xA7, 0xF5, 0x29, 0xFD, 0x4A, 0x7F, 0x52, 0x9F, 0xD4, 0xA7, 0xF5, 0x29, 0xFD,
    0x4A, 0x7F, 0x52, 0x9F, 0xD4, 0xA7, 0xF5, 0x29, 0xFD, 0x4A, 0x7F, 0x52, 0x9F, 0xD4, 0xA7, 0xF5,
    0x2A,
];

/// The generator `g` of the standard parameters of version 2.0, big-endian.
pub const STANDARD_V2_0_G: [u8; 512] = [
    0x36, 0x03, 0x6F, 0xED, 0x21, 0x4F, 0x3B, 0x50, 0xDC, 0x56, 0x6D, 0x3A, 0x31, 0x2F, 0xE4, 0x13,
    0x1F, 0xEE, 0x1C, 0x2B, 0xCE, 0x6D, 0x02, 0xEA, 0x39, 0xB4, 0x77, 0xAC, 0x05, 0xF7, 0xF8, 0x85,
    0xF3, 0x8C, 0xFE, 0x77, 0xA7, 0xE4, 0x5A, 0xCF, 0x40, 0x29, 0x11, 0x4C, 0x4D, 0x7A, 0x9B, 0xFE,
    0x05, 0x8B, 0xF2, 0xF9, 0x95, 0xD2, 0x47, 0x9D, 0x3D, 0xDA, 0x61, 0x8F, 0xFD, 0x91, 0x0D, 0x3C,
    0x42, 0x36, 0xAB, 0x2C, 0xFD, 0xD7, 0x83, 0xA5, 0x01, 0x6F, 0x74, 0x65, 0xCF, 0x59, 0xBB, 0xF4,
    0x5D, 0x24, 0xA2, 0x2F, 0x13, 0x0F, 0x2D, 0x04, 0xFE, 0x93, 0xB2, 0xD5, 0x8B, 0xB9, 0xC1, 0xD1,
    0xD2, 0x7F, 0xC9, 0xA1, 0x7D, 0x2A, 0xF4, 0x9A, 0x77, 0x9F, 0x3F, 0xFB, 0xDC, 0xA2, 0x29, 0x00,
    0xC1, 0x42, 0x02, 0xEE, 0x6C, 0x99, 0x61, 0x60, 0x34, 0xBE, 0x35, 0xCB, 0xCD, 0xD3, 0xE7, 0xBB,
    0x79, 0x96, 0xAD, 0xFE, 0x53, 0x4B, 0x63, 0xCC, 0xA4, 0x1E, 0x21, 0xFF, 0x5D, 0xC7, 0x78, 0xEB,
    0xB1, 0xB8, 0x6C, 0x53, 0xBF, 0xBE, 0x99, 0x98, 0x7D, 0x7A, 0xEA, 0x07, 0x56, 0x23, 0x7F, 0xB4,
    0x09, 0x22, 0x13, 0x9F, 0x90, 0xA6, 0x2F, 0x2A, 0xA8, 0xD9, 0xAD, 0x34, 0xDF, 0xF7, 0x99, 0xE3,
    0x3C, 0x85, 0x7A, 0x64, 0x68, 0xD0, 0x01, 0xAC, 0xF3, 0xB6, 0x81, 0xDB, 0x87, 0xDC, 0x42, 0x42,
    0x75, 0x5E, 0x2A, 0xC5, 0xA5, 0x02, 0x7D, 0xB8, 0x19, 0x84, 0xF0, 0x33, 0xC4, 0xD1, 0x78, 0x37,
    0x1F, 0x27, 0x3D, 0xBB, 0x4F, 0xCE, 0xA1, 0xE6, 0x28, 0xC2, 0x3E, 0x52, 0x75, 0x9B, 0xC7, 0x76,
    0x57, 0x28, 0x03, 0x5C, 0xEA, 0x26, 0xB4, 0x4C, 0x49, 0xA6, 0x56, 0x66, 0x88, 0x98, 0x20, 0xA4,
    0x5C, 0x33, 0xDD, 0x37, 0xEA, 0x4A, 0x1D, 0x00, 0xCB, 0x62, 0x30, 0x5C, 0xD5, 0x41, 0xBE, 0x1E,
    0x8A, 0x92, 0x68, 0x5A, 0x07, 0x01, 0x2B, 0x1A, 0x20, 0xA7, 0x46, 0xC3, 0x59, 0x1A, 0x2D, 0xB3,
    0x81, 0x50, 0x00, 0xD2, 0xAA, 0xCC, 0xFE, 0x43, 0xDC, 0x49, 0xE8, 0x28, 0xC1, 0xED, 0x73, 0x87,
    0x46, 0x6A, 0xFD, 0x8E, 0x4B, 0xF1, 0x93, 0x55, 0x93, 0xB2, 0xA4, 0x42, 0xEE, 0xC2, 0x71, 0xC5,
    0x0A, 0xD3, 0x9F, 0x73, 0x37, 0x97, 0xA1, 0xEA, 0x11, 0x80, 0x2A, 0x25, 0x57, 0x91, 0x65, 0x34,
    0x66, 0x2A, 0x6B, 0x7E, 0x9A, 0x9E, 0x44, 0x9A, 0x24, 0xC8, 0xCF, 0xF8, 0x09, 0xE7, 0x9A, 0x4D,
    0x80, 0x6E, 0xB6, 0x81, 0x11, 0x93, 0x30, 0xE6, 0xC5, 0x79, 0x85, 0xE3, 0x9B, 0x20, 0x0B, 0x48,
    0x93, 0x63, 0x9F, 0xDF, 0xDE, 0xA4, 0x9F, 0x76, 0xAD, 0x1A, 0xCD, 0x99, 0x7E, 0xBA, 0x13, 0x65,
    0x75, 0x41, 0xE7, 0x9E, 0xC5, 0x74, 0x37, 0xE5, 0x04, 0xED, 0xA9, 0xDD, 0x01, 0x10, 0x61, 0x51,
    0x6C, 0x64, 0x3F, 0xB3, 0x0D, 0x6D, 0x58, 0xAF, 0xCC, 0xD2, 0x8B, 0x73, 0xFE, 0xDA, 0x29, 0xEC,
    0x12, 0xB0, 0x1A, 0x5E, 0xB8, 0x63, 0x99, 0xA5, 0x93, 0xA9, 0xD5, 0xF4, 0x50, 0xDE, 0x39, 0xCB,
    0x92, 0x96, 0x2C, 0x5E, 0xC6, 0x92, 0x53, 0x48, 0xDB, 0x54, 0xD1, 0x28, 0xFD, 0x99, 0xC1, 0x4B,
    0x45, 0x7F, 0x88, 0x3E, 0xC2, 0x01, 0x12, 0xA7, 0x5A, 0x6A, 0x05, 0x81, 0xD3, 0xD8, 0x0A, 0x3B,
    0x4E, 0xF0, 0x9E, 0xC8, 0x6F, 0x95, 0x52, 0xFF, 0xDA, 0x16, 0x53, 0xF1, 0x33, 0xAA, 0x25, 0x34,
    0x98, 0x3A, 0x6F, 0x31, 0xB0, 0xEE, 0x46, 0x97, 0x93, 0x5A, 0x6B, 0x1E, 0xA2, 0xF7, 0x5B, 0x85,
    0xE7, 0xEB, 0xA1, 0x51, 0xBA, 0x48, 0x60, 0x94, 0xD6, 0x87, 0x22, 0xB0, 0x54, 0x63, 0x3F, 0xEC,
    0x51, 0xCA, 0x3F, 0x29, 0xB3, 0x1E, 0x77, 0xE3, 0x17, 0xB1, 0x78, 0xB6, 0xB9, 0xD8, 0xAE, 0x0F,
];

/// The modulus `p` of the standard parameters of version 1.54, big-endian.
pub const STANDARD_V1_54_P: [u8; 512] = [
    0xFF, 0xFF, 0xFF, 0xFF, 0xFF, 0xFF, 0xFF, 0xFF, 0xFF, 0xFF, 0xFF, 0xFF, 0xFF, 0xFF, 0xFF, 0xFF,
    0xFF, 0xFF, 0xFF, 0xFF, 0xFF, 0xFF, 0xFF, 0xFF, 0xFF, 0xFF, 0xFF, 0xFF, 0xFF, 0xFF, 0xFF, 0xFF,
    0x93, 0xC4, 0x67, 0xE3, 0x7D, 0xB0, 0xC7, 0xA4, 0xD1, 0xBE, 0x3F, 0x81, 0x01, 0x52, 0xCB, 0x56,
    0xA1, 0xCE, 0xCC, 0x3A, 0xF6, 0x5C, 0xC0, 0x19, 0x0C, 0x03, 0xDF, 0x34, 0x70, 0x9A, 0xFF, 0xBD,
    0x8E, 0x4B, 0x59, 0xFA, 0x03, 0xA9, 0xF0, 0xEE, 0xD0, 0x64, 0x9C, 0xCB, 0x62, 0x10, 0x57, 0xD1,
    0x10, 0x56, 0xAE, 0x91, 0x32, 0x13, 0x5A, 0x08, 0xE4, 0x3B, 0x46, 0x73, 0xD7, 0x4B, 0xAF, 0xEA,
    0x58, 0xDE, 0xB8, 0x78, 0xCC, 0x86, 0xD7, 0x33, 0xDB, 0xE7, 0xBF, 0x38, 0x15, 0x4B, 0x36, 0xCF,
    0x8A, 0x96, 0xD1, 0x56, 0x78, 0x99, 0xAA, 0xAE, 0x0C, 0x09, 0xD4, 0xC8, 0xB6, 0xB7, 0xB8, 0x6F,
    0xD2, 0xA1, 0xEA, 0x1D, 0xE6, 0x2F, 0xF8, 0x64, 0x3E, 0xC7, 0xC2, 0x71, 0x82, 0x79, 0x77, 0x22,
    0x5E, 0x6A, 0xC2, 0xF0, 0xBD, 0x61, 0xC7, 0x46, 0x96, 0x15, 0x42, 0xA3, 0xCE, 0x3B, 0xEA, 0x5D,
    0xB5, 0x4F, 0xE7, 0x0E, 0x63, 0xE6, 0xD0, 0x9F, 0x8F, 0xC2, 0x86, 0x58, 0xE8, 0x05, 0x67, 0xA4,
    0x7C, 0xFD, 0xE6, 0x0E, 0xE7, 0x41, 0xE5, 0xD8, 0x5A, 0x7B, 0xD4, 0x69, 0x31, 0xCE, 0xD8, 0x22,
    0x03, 0x65, 0x59, 0x49, 0x64, 0xB8, 0x39, 0x89, 0x6F, 0xCA, 0xAB, 0xCC, 0xC9, 0xB3, 0x19, 0x59,
    0xC0, 0x83, 0xF2, 0x2A, 0xD3, 0xEE, 0x59, 0x1C, 0x32, 0xFA, 0xB2, 0xC7, 0x44, 0x8F, 0x2A, 0x05,
    0x7D, 0xB2, 0xDB, 0x49, 0xEE, 0x52, 0xE0, 0x18, 0x27, 0x41, 0xE5, 0x38, 0x65, 0xF0, 0x04, 0xCC,
    0x8E, 0x70, 0x4B, 0x7C, 0x5C, 0x40, 0xBF, 0x30, 0x4C, 0x4D, 0x8C, 0x4F, 0x13, 0xED, 0xF6, 0x04,
    0x7C, 0x55, 0x53, 0x02, 0xD2, 0x23, 0x8D, 0x8C, 0xE1, 0x1D, 0xF2, 0x42, 0x4F, 0x1B, 0x66, 0xC2,
    0xC5, 0xD2, 0x38, 0xD0, 0x74, 0x4D, 0xB6, 0x79, 0xAF, 0x28, 0x90, 0x48, 0x70, 0x31, 0xF9, 0xC0,
    0xAE, 0xA1, 0xC4, 0xBB, 0x6F, 0xE9, 0x55, 0x4E, 0xE5, 0x28, 0xFD, 0xF1, 0xB0, 0x5E, 0x5B, 0x25,
    0x62, 0x23, 0xB2, 0xF0, 0x92, 0x15, 0xF3, 0x71, 0x9F, 0x9C, 0x7C, 0xCC, 0x69, 0xDD, 0xF1, 0x72,
    0xD0, 0xD6, 0x23, 0x42, 0x17, 0xFC, 0xC0, 0x03, 0x7F, 0x18, 0xB9, 0x3E, 0xF5, 0x38, 0x91, 0x30,
    0xB7, 0xA6, 0x61, 0xE5, 0xC2, 0x6E, 0x54, 0x21, 0x40, 0x68, 0xBB, 0xCA, 0xFE, 0xA3, 0x2A, 0x67,
    0x81, 0x8B, 0xD3, 0x07, 0x5A, 0xD1, 0xF5, 0xC7, 0xE9, 0xCC, 0x3D, 0x17, 0x37, 0xFB, 0x28, 0x17,
    0x1B, 0xAF, 0x84, 0xDB, 0xB6, 0x61, 0x2B, 0x78, 0x81, 0xC1, 0xA4, 0x8E, 0x43, 0x9C, 0xD0, 0x3A,
    0x92, 0xBF, 0x52, 0x22, 0x5A, 0x2B, 0x38, 0xE6, 0x54, 0x2E, 0x9F, 0x72, 0x2B, 0xCE, 0x15, 0xA3,
    0x81, 0xB5, 0x75, 0x3E, 0xA8, 0x42, 0x76, 0x33, 0x81, 0xCC, 0xAE, 0x83, 0x51, 0x2B, 0x30, 0x51,
    0x1B, 0x32, 0xE5, 0xE8, 0xD8, 0x03, 0x62, 0x14, 0x9A, 0xD0, 0x30, 0xAA, 0xBA, 0x5F, 0x3A, 0x57,
    0x98, 0xBB, 0x22, 0xAA, 0x7E, 0xC1, 0xB6, 0xD0, 0xF1, 0x79, 0x03, 0xF4, 0xE2, 0x2D, 0x84, 0x07,
    0x34, 0xAA, 0x85, 0x97, 0x3F, 0x79, 0xA9, 0x3F, 0xFB, 0x82, 0xA7, 0x5C, 0x47, 0xC0, 0x3D, 0x43,
    0xD2, 0xF9, 0xCA, 0x02, 0xD0, 0x31, 0x99, 0xBA, 0xCE, 0xDD, 0xD4, 0x53, 0x3A, 0x52, 0x56, 0x6A,
    0xFF, 0xFF, 0xFF, 0xFF, 0xFF, 0xFF, 0xFF, 0xFF, 0xFF, 0xFF, 0xFF, 0xFF, 0xFF, 0xFF, 0xFF, 0xFF,
    0xFF, 0xFF, 0xFF, 0xFF, 0xFF, 0xFF, 0xFF, 0xFF, 0xFF, 0xFF, 0xFF, 0xFF, 0xFF, 0xFF, 0xFF, 0xFF,
];

/// The subgroup order `q` of the standard parameters of version 1.54, big-endian.
pub const STANDARD_V1_54_Q: [u8; 32] = [
    0xFF, 0xFF, 0xFF, 0xFF, 0xFF, 0xFF, 0xFF, 0xFF, 0xFF, 0xFF, 0xFF, 0xFF, 0xFF, 0xFF, 0xFF, 0xFF,
    0xFF, 0xFF, 0xFF, 0xFF, 0xFF, 0xFF, 0xFF, 0xFF, 0xFF, 0xFF, 0xFF, 0xFF, 0xFF, 0xFF, 0xFF, 0x43,
];

/// The cofactor `r` of the standard parameters of version 1.54, big-endian.
pub const STANDARD_V1_54_R: [u8; 481] = [
    0x01, 0x00, 0x00, 0x00, 0x00, 0x00, 0x00, 0x00, 0x00, 0x00, 0x00, 0x00, 0x00, 0x00, 0x00, 0x00,
    0x00, 0x00, 0x00, 0x00, 0x00, 0x00, 0x00, 0x00, 0x00, 0x00, 0x00, 0x00, 0x00, 0x00, 0x00, 0x00,
    0xBC, 0x93, 0xC4, 0x67, 0xE3, 0x7D, 0xB0, 0xC7, 0xA4, 0xD1, 0xBE, 0x3F, 0x81, 0x01, 0x52, 0xCB,
    0x56, 0xA1, 0xCE, 0xCC, 0x3A, 0xF6, 0x5C, 0xC0, 0x19, 0x0C, 0x03, 0xDF, 0x34, 0x70, 0x9B, 0x8A,
    0xF6, 0xA6, 0x4C, 0x0C, 0xED, 0xCF, 0x2D, 0x55, 0x9D, 0xA9, 0xD9, 0x7F, 0x09, 0x5C, 0x30, 0x76,
    0xC6, 0x86, 0x03, 0x76, 0x19, 0x14, 0x8D, 0x2C, 0x86, 0xC3, 0x17, 0x10, 0x2A, 0xFA, 0x21, 0x48,
    0x03, 0x1F, 0x04, 0x44, 0x0A, 0xC0, 0xFF, 0x0C, 0x9A, 0x41, 0x7A, 0x89, 0x21, 0x25, 0x12, 0xE7,
    0x60, 0x7B, 0x25, 0x01, 0xDA, 0xA4, 0xD3, 0x8A, 0x2C, 0x14, 0x10, 0xC4, 0x83, 0x61, 0x49, 0xE2,
    0xBD, 0xB8, 0xC8, 0x26, 0x0E, 0x62, 0x7C, 0x46, 0x46, 0x96, 0x3E, 0xFF, 0xE9, 0xE1, 0x6E, 0x49,
    0x5D, 0x48, 0xBD, 0x21, 0x5C, 0x6D, 0x8E, 0xC9, 0xD1, 0x66, 0x76, 0x57, 0xA2, 0xA1, 0xC8, 0x50,
    0x6F, 0x21, 0x13, 0xFF, 0xAD, 0x19, 0xA6, 0xB2, 0xBC, 0x7C, 0x45, 0x76, 0x04, 0x56, 0x71, 0x91,
    0x83, 0x30, 0x9F, 0x87, 0x4B, 0xC9, 0xAC, 0xE5, 0x70, 0xFF, 0xDA, 0x87, 0x7A, 0xA2, 0xB2, 0x3A,
    0x2D, 0x6F, 0x29, 0x1C, 0x15, 0x54, 0xCA, 0x2E, 0xB1, 0x2F, 0x12, 0xCD, 0x00, 0x9B, 0x8B, 0x87,
    0x34, 0xA6, 0x4A, 0xD5, 0x1E, 0xB8, 0x93, 0xBD, 0x89, 0x17, 0x50, 0xB8, 0x51, 0x62, 0x24, 0x1D,
    0x90, 0x8F, 0x0C, 0x97, 0x09, 0x87, 0x97, 0x58, 0xE7, 0xE8, 0x23, 0x3E, 0xAB, 0x3B, 0xF2, 0xD6,
    0xAB, 0x53, 0xAF, 0xA3, 0x2A, 0xA1, 0x53, 0xAD, 0x66, 0x82, 0xE5, 0xA0, 0x64, 0x88, 0x97, 0xC9,
    0xBE, 0x18, 0xA0, 0xD5, 0x0B, 0xEC, 0xE0, 0x30, 0xC3, 0x43, 0x23, 0x36, 0xAD, 0x91, 0x63, 0xE3,
    0x3F, 0x8E, 0x7D, 0xAF, 0x49, 0x8F, 0x14, 0xBB, 0x28, 0x52, 0xAF, 0xFA, 0x81, 0x48, 0x41, 0xEB,
    0x18, 0xDD, 0x5F, 0x0E, 0x89, 0x51, 0x6D, 0x55, 0x77, 0x76, 0x28, 0x5C, 0x16, 0x07, 0x1D, 0x21,
    0x11, 0x94, 0xEE, 0x1C, 0x3F, 0x34, 0x64, 0x20, 0x36, 0xAB, 0x88, 0x6E, 0x3E, 0xC2, 0x88, 0x82,
    0xCE, 0x40, 0x03, 0xDE, 0xA3, 0x35, 0xB4, 0xD9, 0x35, 0xBA, 0xE4, 0xB5, 0x82, 0x35, 0xB9, 0xFB,
    0x2B, 0xAB, 0x71, 0x3C, 0x8F, 0x70, 0x5A, 0x1C, 0x7D, 0xE4, 0x22, 0x20, 0x20, 0x9D, 0x6B, 0xBC,
    0xAC, 0xC4, 0x67, 0x31, 0x86, 0x01, 0x56, 0x52, 0x72, 0xE4, 0xA6, 0x3E, 0x38, 0xE2, 0x49, 0x97,
    0x54, 0xAE, 0x49, 0x3A, 0xC1, 0xA8, 0xE8, 0x34, 0x69, 0xEE, 0xF3, 0x5C, 0xA2, 0x7C, 0x27, 0x1B,
    0xC7, 0x92, 0xEE, 0xE2, 0x11, 0x56, 0xE6, 0x17, 0xB9, 0x22, 0xEA, 0x8F, 0x71, 0x3C, 0x22, 0xCF,
    0x28, 0x2D, 0xC5, 0xD6, 0x38, 0x5B, 0xB1, 0x28, 0x68, 0xEB, 0x78, 0x12, 0x78, 0xFA, 0x0A, 0xB2,
    0xA8, 0x95, 0x8F, 0xCC, 0xB5, 0xFF, 0xE2, 0xE5, 0xC3, 0x61, 0xFC, 0x17, 0x44, 0x20, 0x12, 0x2B,
    0x01, 0x63, 0xCA, 0x4A, 0x46, 0x30, 0x8C, 0x8C, 0x46, 0xC9, 0x1E, 0xA7, 0x45, 0x7C, 0x13, 0x6A,
    0x7D, 0x9F, 0xD4, 0xA7, 0xF5, 0x29, 0xFD, 0x4A, 0x7F, 0x52, 0x9F, 0xD4, 0xA7, 0xF5, 0x29, 0xFD,
    0x4A, 0x7F, 0x52, 0x9F, 0xD4, 0xA7, 0xF5, 0x29, 0xFD, 0x4A, 0x7F, 0x52, 0x9F, 0xD4, 0xA7, 0xF5,
    0x2A,
];

/// The generator `g` of the standard parameters of version 1.54, big-endian.
pub const STANDARD_V1_54_G: [u8; 512] = [
    0x1D, 0x41, 0xE4, 0x9C, 0x47, 0x7E, 0x15, 0xEA, 0xEE, 0xF0, 0xC5, 0xE4, 0xAC, 0x08, 0xD4, 0xA4,
    0x6C, 0x26, 0x8C, 0xD3, 0x42, 0x4F, 0xC0, 0x1D, 0x13, 0x76, 0x9B, 0xDB, 0x43, 0x67, 0x32, 0x18,
    0x58, 0x7B, 0xC8, 0x6C, 0x4C, 0x14, 0x48, 0xD0, 0x06, 0xA0, 0x36, 0x99, 0xF3, 0xAB, 0xAE, 0x5F,
    0xEB, 0x19, 0xE2, 0x96, 0xF5, 0xD1, 0x43, 0xCC, 0x5E, 0x4A, 0x3F, 0xC8, 0x90, 0x88, 0xC9, 0xF4,
    0x52, 0x3D, 0x16, 0x6E, 0xE3, 0xAE, 0x9D, 0x5F, 0xB0, 0x3C, 0x0B, 0xDD, 0x77, 0xAD, 0xD5, 0xC0,
    0x17, 0xF6, 0xC5, 0x5E, 0x2E, 0xC9, 0x2C, 0x22, 0x6F, 0xEF, 0x5C, 0x6C, 0x1D, 0xF2, 0xE7, 0xC3,
    0x6D, 0x90, 0xE7, 0xEA, 0xAD, 0xE0, 0x98, 0x24, 0x1D, 0x34, 0x09, 0x98, 0x3B, 0xCC, 0xD2, 0xB5,
    0x37, 0x9E, 0x93, 0x91, 0xFB, 0xC6, 0x2F, 0x9F, 0x8D, 0x93, 0x9D, 0x12, 0x08, 0xB1, 0x60, 0x36,
    0x7C, 0x13, 0x42, 0x64, 0x12, 0x21, 0x89, 0x59, 0x5E, 0xC8, 0x5C, 0x8C, 0xDB, 0xE5, 0xF9, 0xD3,
    0x07, 0xF4, 0x69, 0x12, 0xC0, 0x49, 0x32, 0xF8, 0xC1, 0x68, 0x15, 0xA7, 0x6B, 0x46, 0x82, 0xBD,
    0x6B, 0xDC, 0x0E, 0xD5, 0x2B, 0x00, 0xD8, 0xD3, 0x0F, 0x59, 0xC7, 0x31, 0xD5, 0xA7, 0xFF, 0xAE,
    0x81, 0x65, 0xD5, 0x3C, 0xF9, 0x66, 0x49, 0xAA, 0xC2, 0xB7, 0x43, 0xDA, 0x56, 0xF1, 0x4F, 0x19,
    0xDA, 0xCC, 0x52, 0x36, 0xF2, 0x9B, 0x1A, 0xB9, 0xF9, 0xBE, 0xFC, 0x69, 0x69, 0x72, 0x93, 0xD5,
    0xDE, 0xAD, 0x8B, 0x5B, 0xF5, 0xDE, 0x9B, 0xAB, 0x6D, 0xE6, 0x7C, 0x45, 0x71, 0x9E, 0x56, 0x34,
    0x4A, 0x3C, 0xBD, 0xF3, 0x60, 0x98, 0x24, 0xB1, 0xB5, 0x78, 0xE3, 0x4E, 0xAE, 0xB6, 0xDD, 0x31,
    0x90, 0xAB, 0x35, 0x71, 0xD6, 0xD6, 0x71, 0xC5, 0x12, 0x28, 0x2C, 0x1D, 0xA7, 0xBD, 0x36, 0xB4,
    0x25, 0x1D, 0x25, 0x84, 0xFA, 0xDE, 0xA8, 0x0B, 0x9E, 0x14, 0x14, 0x23, 0x07, 0x4D, 0xD9, 0xB5,
    0xFB, 0x83, 0xAC, 0xBD, 0xEA, 0xD4, 0xC8, 0x7A, 0x58, 0xFF, 0xF5, 0x17, 0xF9, 0x77, 0xA8, 0x30,
    0x80, 0x37, 0x0A, 0x3B, 0x0C, 0xF9, 0x8A, 0x1B, 0xC2, 0x97, 0x8C, 0x47, 0xAA, 0xC2, 0x96, 0x11,
    0xFD, 0x6C, 0x40, 0xE2, 0xF9, 0x87, 0x5C, 0x35, 0xD5, 0x04, 0x43, 0xA9, 0xAA, 0x3F, 0x49, 0x61,
    0x1D, 0xCD, 0x3A, 0x0D, 0x6F, 0xF3, 0xCB, 0x3F, 0xAC, 0xF3, 0x14, 0x71, 0xBD, 0xB6, 0x18, 0x60,
    0xB9, 0x2C, 0x59, 0x4D, 0x4E, 0x46, 0x56, 0x9B, 0xB3, 0x9F, 0xEE, 0xAD, 0xFF, 0x1F, 0xD6, 0x4C,
    0x83, 0x6A, 0x6D, 0x6D, 0xB8, 0x5C, 0x6B, 0xA7, 0x24, 0x17, 0x66, 0xB7, 0xAB, 0x56, 0xBF, 0x73,
    0x96, 0x33, 0xB0, 0x54, 0x14, 0x7F, 0x71, 0x70, 0x92, 0x14, 0x12, 0xE9, 0x48, 0xD9, 0xE4, 0x74,
    0x02, 0xD1, 0x5B, 0xB1, 0xC2, 0x57, 0x31, 0x86, 0x12, 0xC1, 0x21, 0xC3, 0x6B, 0x80, 0xEB, 0x84,
    0x33, 0xC0, 0x8E, 0x7D, 0x0B, 0x71, 0x49, 0xE3, 0xAB, 0x0A, 0x87, 0x35, 0xA9, 0x2E, 0xDC, 0xE8,
    0xFF, 0x94, 0x3E, 0x28, 0xA2, 0xDC, 0xEA, 0xCF, 0xCC, 0x69, 0xEC, 0x31, 0x89, 0x09, 0xCB, 0x04,
    0x7B, 0xE1, 0xC5, 0x85, 0x88, 0x44, 0xB5, 0xAD, 0x44, 0xF2, 0x2E, 0xEB, 0x28, 0x9E, 0x4C, 0xC5,
    0x54, 0xF7, 0xA5, 0xE2, 0xF3, 0xDE, 0xA0, 0x26, 0x87, 0x7F, 0xF9, 0x28, 0x51, 0x81, 0x60, 0x71,
    0xCE, 0x02, 0x8E, 0xB8, 0x68, 0xD9, 0x65, 0xCC, 0xB2, 0xD2, 0x29, 0x5A, 0x8C, 0x55, 0xBD, 0x1C,
    0x07, 0x0B, 0x39, 0xB0, 0x9A, 0xE0, 0x6B, 0x37, 0xD2, 0x93, 0x43, 0xB9, 0xD8, 0x99, 0x7D, 0xC2,
    0x44, 0xC4, 0x68, 0xB9, 0x80, 0x97, 0x07, 0x31, 0x73, 0x6E, 0xE0, 0x18, 0xBB, 0xAD, 0xB9, 0x87,
];

/// Whether `n` is the modulus `p` of one of the standard parameter sets. These moduli
/// are published as primes, and were tested when they were made constants of this
/// library; the validation of parameters does not test them again.
#[verifier::opaque]
pub open spec fn is_standard_modulus(n: nat) -> bool {
    n == nat_of_be(STANDARD_V2_0_P@) || n == nat_of_be(STANDARD_V1_54_P@)
}

/// Tells whether `n` is the modulus `p` of one of the standard parameter sets.
pub fn is_standard_modulus_value(n: &BigNat) -> (res: bool)
    ensures
        res == is_standard_modulus(n@),
{
    proof {
        reveal(is_standard_modulus);
    }
    let v2_0 = BigNat::from_be_bytes(array_as_slice(&STANDARD_V2_0_P));
    let v1_54 = BigNat::from_be_bytes(array_as_slice(&STANDARD_V1_54_P));
    n.eq_value(&v2_0) || n.eq_value(&v1_54)
}

/// Standard parameters, version 2.0.
pub fn make_standard_parameters_v2_0() -> (res: FixedParameters)
    ensures
        res.opt_version == Some([2usize, 0usize]),
        res.generation_parameters == (FixedParameterGenerationParameters {
            q_bits_total: 256,
            p_bits_total: 4096,
            p_bits_msb_fixed_1: 256,
            p_middle_bits_source: NumsNumber::Ln2,
            p_bits_lsb_fixed_1: 256,
        }),
        res.p@ == nat_of_be(STANDARD_V2_0_P@),
        res.q@ == nat_of_be(STANDARD_V2_0_Q@),
        res.r@ == nat_of_be(STANDARD_V2_0_R@),
        res.g@ == nat_of_be(STANDARD_V2_0_G@),
{
    FixedParameters {
        opt_version: Some([2, 0]),
        generation_parameters: FixedParameterGenerationParameters {
            q_bits_total: 256,
            p_bits_total: 4096,
            p_bits_msb_fixed_1: 256,
            p_middle_bits_source: NumsNumber::Ln2,
            p_bits_lsb_fixed_1: 256,
        },
        p: BigNat::from_be_bytes(array_as_slice(&STANDARD_V2_0_P)),
        q: BigNat::from_be_bytes(array_as_slice(&STANDARD_V2_0_Q)),
        r: BigNat::from_be_bytes(array_as_slice(&STANDARD_V2_0_R)),
        g: BigNat::from_be_bytes(array_as_slice(&STANDARD_V2_0_G)),
    }
}

/// Standard parameters, version 1.54.
pub fn make_standard_parameters_v1_54() -> (res: FixedParameters)
    ensures
        res.opt_version == Some([1usize, 54usize]),
        res.generation_parameters == (FixedParameterGenerationParameters {
            q_bits_total: 256,
            p_bits_total: 4096,
            p_bits_msb_fixed_1: 256,
            p_middle_bits_source: NumsNumber::EulerMascheroniConstant,
            p_bits_lsb_fixed_1: 256,
        }),
        res.p@ == nat_of_be(STANDARD_V1_54_P@),
        res.q@ == nat_of_be(STANDARD_V1_54_Q@),
        res.r@ == nat_of_be(STANDARD_V1_54_R@),
        res.g@ == nat_of_be(STANDARD_V1_54_G@),
{
    FixedParameters {
        opt_version: Some([1, 54]),
        generation_parameters: FixedParameterGenerationParameters {
            q_bits_total: 256,
            p_bits_total: 4096,
            p_bits_msb_fixed_1: 256,
            p_middle_bits_source: NumsNumber::EulerMascheroniConstant,
            p_bits_lsb_fixed_1: 256,
        },
        p: BigNat::from_be_bytes(array_as_slice(&STANDARD_V1_54_P)),
        q: BigNat::from_be_bytes(array_as_slice(&STANDARD_V1_54_Q)),
        r: BigNat::from_be_bytes(array_as_slice(&STANDARD_V1_54_R)),
        g: BigNat::from_be_bytes(array_as_slice(&STANDARD_V1_54_G)),
    }
}

/// The standard parameters of the latest version, which is 2.0.
pub fn standard_parameters() -> (res: FixedParameters)
    ensures
        res.opt_version == Some([2usize, 0usize]),
        res.generation_parameters == (FixedParameterGenerationParameters {
            q_bits_total: 256,
            p_bits_total: 4096,
            p_bits_msb_fixed_1: 256,
            p_middle_bits_source: NumsNumber::Ln2,
            p_bits_lsb_fixed_1: 256,
        }),
        res.p@ == nat_of_be(STANDARD_V2_0_P@),
        res.q@ == nat_of_be(STANDARD_V2_0_Q@),
        res.r@ == nat_of_be(STANDARD_V2_0_R@),
        res.g@ == nat_of_be(STANDARD_V2_0_G@),
{
    make_standard_parameters_v2_0()
}

} // verus!
