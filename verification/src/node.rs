//! The peer to call, as read from its node record, and the key we present to it.
//!
//! A node record is written `<identifier>@<host>:<port>`. Only the address is
//! read here; the identifier is the business of the key agreement.

use crate::errors::CustomError;
use crate::text::{
    decimal_digits, find_only, lemma_decimal_digits_denote, lemma_only_index_found,
    lemma_only_index_is, lemma_shortest_decimal_is_kept, only_at, only_index, parse_port,
    port_number, push_decimal, to_chars, is_shortest_decimal,
};
use secp256k1::SecretKey;
use vstd::prelude::*;
use vstd::slice::slice_subrange;

verus! {

/// `secp256k1::SecretKey`, carried through unread.
#[verifier::external_type_specification]
#[verifier::external_body]
pub struct ExSecretKey(SecretKey);

/// Draws a new secret key with `secp256k1::SecretKey::new`, fed by the
/// thread's random number generator. Which key comes out is left open.
#[verifier::external_body]
fn fresh_secret_key() -> SecretKey {
    SecretKey::new(&mut secp256k1::rand::thread_rng())
}

/// What follows the only `@` of a node record: its address part. A record
/// with no `@`, or with more than one, has none.
pub open spec fn address_part(record: Seq<char>) -> Option<Seq<char>> {
    match only_index(record, '@') {
        Some(at) => Some(record.skip(at + 1)),
        None => None,
    }
}

/// The host text and the port of an address part `host:port`. An address with
/// no `:`, or with more than one, has none; nor has one whose host is empty,
/// whose port text denotes no port, or whose port is zero.
pub open spec fn host_and_port(address: Seq<char>) -> Option<(Seq<char>, u16)> {
    match only_index(address, ':') {
        Some(colon) => match port_number(address.skip(colon + 1)) {
            Some(port) => if colon > 0 && port != 0 {
                Some((address.take(colon), port))
            } else {
                None
            },
            None => None,
        },
        None => None,
    }
}

/// The host text and the port that a node record names, if it is well formed.
pub open spec fn node_record_parts(record: Seq<char>) -> Option<(Seq<char>, u16)> {
    match address_part(record) {
        Some(address) => host_and_port(address),
        None => None,
    }
}

/// The text of an address: the host, a colon, the port in its shortest
/// decimal writing.
pub open spec fn address_text(host: Seq<char>, port: u16) -> Seq<char> {
    host + seq![':'] + decimal_digits(port as nat)
}

/// A remote peer's address, with the secret key we present to it.
pub struct Node {
    addr: String,
    port: u16,
    secret_key: SecretKey,
}

/// The mathematical content of a [`Node`].
pub ghost struct NodeModel {
    /// The host, as text.
    pub addr: Seq<char>,
    /// The port.
    pub port: u16,
    /// Our secret key for this peer.
    pub secret_key: SecretKey,
}

impl View for Node {
    type V = NodeModel;

    closed spec fn view(&self) -> NodeModel {
        NodeModel { addr: self.addr@, port: self.port, secret_key: self.secret_key }
    }
}

/// Splits a node record into host and port.
///
/// The record must hold exactly one `@`, what follows it exactly one `:`, a
/// host before that `:` and a port number other than zero behind it. Every
/// other record is refused with [`CustomError::AddressPortParse`].
pub fn parse_node_record(node_record_str: &str) -> (parts: Result<(&str, u16), CustomError>)
    ensures
        match parts {
            Ok((addr, port)) => node_record_parts(node_record_str@) == Some((addr@, port)),
            Err(error) => node_record_parts(node_record_str@) is None && error
                is AddressPortParse,
        },
{
    let chars = to_chars(node_record_str);
    let at = match find_only(chars.as_slice(), '@') {
        Some(at) => at,
        None => {
            return Err(CustomError::AddressPortParse);
        },
    };
    assert(at < chars.len());
    let address = slice_subrange(chars.as_slice(), at + 1, chars.len());
    assert(address@ == node_record_str@.skip(at + 1));
    let colon = match find_only(address, ':') {
        Some(colon) => colon,
        None => {
            return Err(CustomError::AddressPortParse);
        },
    };
    let port_text = slice_subrange(address, colon + 1, address.len());
    assert(port_text@ == address@.skip(colon + 1));
    let port = match parse_port(port_text) {
        Some(port) => port,
        None => {
            return Err(CustomError::AddressPortParse);
        },
    };
    if colon == 0 || port == 0 {
        return Err(CustomError::AddressPortParse);
    }
    let addr = node_record_str.substring_char(at + 1, at + 1 + colon);
    assert(addr@ == address@.take(colon as int));
    Ok((addr, port))
}

/// The text `host:port` of an address.
pub fn format_address(addr: &str, port: u16) -> (text: String)
    ensures
        text@ == address_text(addr@, port),
{
    proof {
        reveal_strlit(":");
    }
    let mut text = addr.to_string();
    text.append(":");
    assert(text@ =~= addr@ + seq![':']);
    push_decimal(&mut text, port);
    text
}

impl Node {
    /// The node at `addr` and `port`, to be presented with `secret_key`.
    pub fn from_parts(addr: &str, port: u16, secret_key: SecretKey) -> (node: Node)
        ensures
            node@.addr == addr@,
            node@.port == port,
            node@.secret_key == secret_key,
    {
        Node { addr: addr.to_string(), port, secret_key }
    }

    /// The node that a record names, to be presented with `secret_key`.
    ///
    /// A record is refused exactly when [`parse_node_record`] refuses it.
    pub fn with_secret_key(node_record_str: &str, secret_key: SecretKey) -> (node: Result<
        Node,
        CustomError,
    >)
        ensures
            match node {
                Ok(node) => node_record_parts(node_record_str@) == Some((node@.addr, node@.port))
                    && node@.secret_key == secret_key,
                Err(error) => node_record_parts(node_record_str@) is None && error
                    is AddressPortParse,
            },
    {
        match parse_node_record(node_record_str) {
            Ok((addr, port)) => Ok(Node::from_parts(addr, port, secret_key)),
            Err(error) => Err(error),
        }
    }

    /// The node that a record names, with a secret key drawn for this session.
    ///
    /// A record is refused exactly when [`parse_node_record`] refuses it. To
    /// choose the key, use [`Node::with_secret_key`].
    pub fn new(node_record_str: &str) -> (node: Result<Node, CustomError>)
        ensures
            match node {
                Ok(node) => node_record_parts(node_record_str@) == Some((node@.addr, node@.port)),
                Err(error) => node_record_parts(node_record_str@) is None && error
                    is AddressPortParse,
            },
    {
        match parse_node_record(node_record_str) {
            Ok((addr, port)) => Ok(Node::from_parts(addr, port, fresh_secret_key())),
            Err(error) => Err(error),
        }
    }

    /// Splits a node record into host and port; see [`parse_node_record`].
    pub fn parse_node_record(node_record_str: &str) -> (parts: Result<(&str, u16), CustomError>)
        ensures
            match parts {
                Ok((addr, port)) => node_record_parts(node_record_str@) == Some((addr@, port)),
                Err(error) => node_record_parts(node_record_str@) is None && error
                    is AddressPortParse,
            },
    {
        parse_node_record(node_record_str)
    }

    /// The host.
    pub fn get_addr(&self) -> (addr: &str)
        ensures
            addr@ == self@.addr,
    {
        self.addr.as_str()
    }

    /// The port.
    pub fn get_port(&self) -> (port: u16)
        ensures
            port == self@.port,
    {
        self.port
    }

    /// Our secret key for this peer.
    pub fn get_secret_key(&self) -> (secret_key: &SecretKey)
        ensures
            *secret_key == self@.secret_key,
    {
        &self.secret_key
    }

    /// The text `host:port` to connect to.
    pub fn address(&self) -> (text: String)
        ensures
            text@ == address_text(self@.addr, self@.port),
    {
        format_address(self.addr.as_str(), self.port)
    }
}

/// A record without exactly one `@`, and one whose address part is without
/// exactly one `:`, names nothing.
pub proof fn lemma_malformed_record_is_refused(record: Seq<char>)
    requires
        only_index(record, '@') is None || only_index(address_part(record)->0, ':') is None,
    ensures
        node_record_parts(record) is None,
{
}

/// Whatever a record names has a host that is not empty and a port that is
/// not zero.
pub proof fn lemma_named_peer_is_usable(record: Seq<char>)
    requires
        node_record_parts(record) is Some,
    ensures
        ({
            let (host, port) = node_record_parts(record)->0;
            host.len() > 0 && port != 0
        }),
{
    let address = address_part(record)->0;
    lemma_only_index_found(address, ':');
}

/// Reading a record and writing the address again gives back the address
/// part of the record, character for character, provided the port was written
/// the shortest way: without a sign and without leading zeros.
pub proof fn lemma_parse_then_format(record: Seq<char>)
    requires
        node_record_parts(record) is Some,
        is_shortest_decimal(
            address_part(record)->0.skip(only_index(address_part(record)->0, ':')->0 + 1),
        ),
    ensures
        ({
            let (host, port) = node_record_parts(record)->0;
            address_text(host, port) == address_part(record)->0
        }),
{
    let address = address_part(record)->0;
    let colon = only_index(address, ':')->0;
    let port_text = address.skip(colon + 1);
    let (host, port) = node_record_parts(record)->0;
    lemma_only_index_found(address, ':');
    lemma_shortest_decimal_is_kept(port_text);
    assert(port_text[0] != '+');
    assert(decimal_digits(port as nat) == port_text);
    assert(address_text(host, port) =~= address);
}

/// Writing an address and reading it back gives the same host and port:
/// whatever identifier stands before the `@`, as long as neither it nor the
/// host holds an `@`, the host holds no `:` and is not empty, and the port is
/// not zero.
pub proof fn lemma_format_then_parse(id: Seq<char>, host: Seq<char>, port: u16)
    requires
        host.len() > 0,
        port > 0,
        !id.contains('@'),
        !host.contains('@'),
        !host.contains(':'),
    ensures
        address_part(id + seq!['@'] + address_text(host, port)) == Some(address_text(host, port)),
        node_record_parts(id + seq!['@'] + address_text(host, port)) == Some((host, port)),
{
    let digits = decimal_digits(port as nat);
    let address = address_text(host, port);
    let record = id + seq!['@'] + address;
    lemma_decimal_digits_denote(port as nat);
    assert forall|i: int| 0 <= i < digits.len() implies digits[i] != '@' && digits[i] != ':' by {
        assert(crate::text::is_decimal_digit(digits[i]));
    }
    assert forall|i: int| 0 <= i < address.len() && address[i] == ':' implies i
        == host.len() by {
        if i < host.len() {
            assert(host.contains(address[i]));
        } else if i > host.len() {
            assert(address[i] == digits[i - host.len() - 1]);
        }
    }
    assert(only_at(address, ':', host.len() as int));
    lemma_only_index_is(address, ':', host.len() as int);
    assert(address.skip(host.len() as int + 1) =~= digits);
    assert(address.take(host.len() as int) =~= host);
    assert forall|i: int| 0 <= i < record.len() && record[i] == '@' implies i == id.len() by {
        if i < id.len() {
            assert(id.contains(record[i]));
        } else if i > id.len() {
            let j = i - id.len() - 1;
            assert(record[i] == address[j]);
            if j < host.len() {
                assert(host.contains(address[j]));
            } else if j > host.len() {
                assert(address[j] == digits[j - host.len() - 1]);
            }
        }
    }
    assert(only_at(record, '@', id.len() as int));
    lemma_only_index_is(record, '@', id.len() as int);
    assert(record.skip(id.len() as int + 1) =~= address);
}

} // verus!
