//! Tests for buffers and chains.

use nginx_rs::arena::Arena;
use nginx_rs::buffer::{Buffer, MemoryBuffer, MutableBuffer, NgxBuf, TemporaryBuffer};
use nginx_rs::chain::Chain;

#[test]
fn create_from_bytes_round_trips() {
    let mut arena = Arena::new(64);
    let buf = TemporaryBuffer::create_from_bytes(&mut arena, b"Hello, world!\n")
        .expect("the arena holds 64 bytes");
    assert_eq!(buf.as_bytes(), b"Hello, world!\n");
    assert_eq!(buf.len(), 14);
    assert_eq!(arena.used, 14);
}

#[test]
fn create_from_bytes_fails_when_arena_cannot_hold_it() {
    let mut arena = Arena::new(4);
    assert!(TemporaryBuffer::create_from_bytes(&mut arena, b"hello").is_none());
    assert_eq!(arena.used, 0);
}

#[test]
fn create_temporary_starts_empty_and_takes_writes() {
    let mut arena = Arena::new(8);
    let mut buf = TemporaryBuffer::create_temporary(&mut arena, 3).expect("3 bytes fit");
    assert_eq!(buf.len(), 0);
    buf.write_byte(0, b'h');
    buf.write_byte(1, b'i');
    buf.set_filled(2);
    assert_eq!(buf.as_bytes(), b"hi");
    assert_eq!(buf.len(), 2);
}

#[test]
fn memory_buffer_wraps_without_arena_charge() {
    let buf = MemoryBuffer::create_from_static(b"static".to_vec());
    assert_eq!(buf.as_bytes(), b"static");
    assert_eq!(buf.len(), 6);
    assert!(!buf.as_ngx_buf().temporary);
}

#[test]
fn role_flags_are_independent() {
    let mut buf = MemoryBuffer::create_from_static(b"x".to_vec());
    buf.set_last_buf(true);
    assert!(buf.as_ngx_buf().last_buf);
    assert!(!buf.as_ngx_buf().last_in_chain);
    buf.set_last_in_chain(true);
    assert!(buf.as_ngx_buf().last_buf);
    assert!(buf.as_ngx_buf().last_in_chain);
    buf.set_last_buf(false);
    assert!(!buf.as_ngx_buf().last_buf);
    assert!(buf.as_ngx_buf().last_in_chain);
}

#[test]
fn from_ngx_buf_keeps_the_descriptor() {
    let descriptor = NgxBuf {
        bytes: b"abc".to_vec(),
        pos: 1,
        last: 3,
        temporary: true,
        last_buf: false,
        last_in_chain: false,
    };
    let buf = TemporaryBuffer::from_ngx_buf(descriptor);
    assert_eq!(buf.as_bytes(), b"bc");
    let descriptor = NgxBuf {
        bytes: b"abc".to_vec(),
        pos: 0,
        last: 2,
        temporary: false,
        last_buf: false,
        last_in_chain: false,
    };
    let buf = MemoryBuffer::from_ngx_buf(descriptor);
    assert_eq!(buf.as_bytes(), b"ab");
}

#[test]
fn two_link_chain_concatenates_in_order() {
    let mut arena = Arena::new(64);
    let first = TemporaryBuffer::create_from_bytes(&mut arena, b"Hello, ").unwrap();
    let mut second = TemporaryBuffer::create_from_bytes(&mut arena, b"world!\n").unwrap();
    second.set_last_in_chain(true);
    let mut chain = Chain::new();
    chain.add_link(first.into_ngx_buf());
    assert!(!chain.is_complete());
    chain.add_link(second.into_ngx_buf());
    assert!(chain.is_complete());
    assert_eq!(chain.len(), 2);
    assert!(!chain.links[0].last_in_chain);
    assert!(chain.links[1].last_in_chain);
    assert_eq!(chain.collect_bytes(), b"Hello, world!\n");
}

#[test]
fn zero_length_link_only_as_body_terminator() {
    let mut arena = Arena::new(8);
    let mut sentinel = TemporaryBuffer::create_temporary(&mut arena, 0).unwrap();
    sentinel.set_last_buf(true);
    sentinel.set_last_in_chain(true);
    let mut chain = Chain::new();
    chain.add_link(sentinel.into_ngx_buf());
    assert!(chain.is_complete());
    assert_eq!(chain.collect_bytes(), b"");
}

#[test]
fn chain_with_wrong_final_flag_is_incomplete() {
    let mut flagged = MemoryBuffer::create_from_static(b"a".to_vec());
    flagged.set_last_in_chain(true);
    let plain = MemoryBuffer::create_from_static(b"b".to_vec());
    let mut chain = Chain::new();
    chain.add_link(flagged.into_ngx_buf());
    chain.add_link(plain.into_ngx_buf());
    assert!(!chain.is_complete());
    let empty = Chain::new();
    assert!(!empty.is_complete());
}
