//! What is known of an IP address, and a cache of it.
//!
//! Looking an address up costs a call to a remote service, so answers are
//! kept: the cache is asked first, and what the service said is remembered.

use vstd::prelude::*;
use vstd::string::*;
use crate::text::{owned, str_eq};

verus! {

/// Whether an answer came from the cache or from the service.
#[derive(Clone, Copy, Debug, PartialEq, Eq, Hash, Structural)]
pub enum CachedIpInfoResponseType {
    CacheHit,
    CacheMiss,
}

/// What the service knows of an address.
#[derive(Debug, PartialEq, Eq)]
pub struct IpInfo {
    pub ip: String,
    pub city: String,
    pub region: String,
    pub country: String,
    pub loc: String,
    pub org: String,
    pub postal: String,
    pub timezone: String,
}

/// An answer, and where it came from.
#[derive(Debug, PartialEq, Eq)]
pub struct CachedIpInfoResponse {
    pub ip_info: IpInfo,
    pub response_type: CachedIpInfoResponseType,
}

impl CachedIpInfoResponse {
    pub fn new(ip_info: IpInfo, response_type: CachedIpInfoResponseType) -> (r: CachedIpInfoResponse)
        ensures
            r.ip_info == ip_info,
            r.response_type == response_type,
    {
        CachedIpInfoResponse { ip_info, response_type }
    }
}

impl IpInfo {
    /// City, region and country, separated by commas.
    pub open spec fn place(self) -> Seq<char> {
        self.city@ + ", "@ + self.region@ + ", "@ + self.country@
    }

    /// City, region and country, separated by commas.
    pub fn loc_to_string(&self) -> (s: String)
        ensures
            s@ == self.place(),
    {
        let mut s = self.city.clone();
        s.append(", ");
        s.append(self.region.as_str());
        s.append(", ");
        s.append(self.country.as_str());
        s
    }

    /// A copy that is equal in every field.
    pub fn duplicate(&self) -> (r: IpInfo)
        ensures
            r == *self,
    {
        IpInfo {
            ip: self.ip.clone(),
            city: self.city.clone(),
            region: self.region.clone(),
            country: self.country.clone(),
            loc: self.loc.clone(),
            org: self.org.clone(),
            postal: self.postal.clone(),
            timezone: self.timezone.clone(),
        }
    }
}

/// One remembered answer.
#[derive(Debug, PartialEq, Eq)]
pub struct CacheLine {
    pub ip: String,
    pub info: IpInfo,
}

/// What the cache holds for `ip`: the answer that was remembered first.
pub open spec fn cached(lines: Seq<CacheLine>, ip: Seq<char>) -> Option<IpInfo>
    decreases lines.len(),
{
    if lines.len() == 0 {
        None
    } else if lines[0].ip@ == ip {
        Some(lines[0].info)
    } else {
        cached(lines.skip(1), ip)
    }
}

/// The answers that were remembered, oldest first. Nothing is ever
/// forgotten.
pub struct CachedIpInfoClient {
    cache: Vec<CacheLine>,
}

impl CachedIpInfoClient {
    /// The remembered answers, oldest first.
    pub closed spec fn view(&self) -> Seq<CacheLine> {
        self.cache@
    }

    pub fn new() -> (c: CachedIpInfoClient)
        ensures
            c@ == Seq::<CacheLine>::empty(),
    {
        CachedIpInfoClient { cache: Vec::new() }
    }

    /// Asks the cache. An answer that is there comes back marked as a hit.
    pub fn lookup(&self, ip: &str) -> (r: Option<CachedIpInfoResponse>)
        ensures
            match cached(self@, ip@) {
                Some(info) => r == Some(
                    CachedIpInfoResponse { ip_info: info, response_type: CachedIpInfoResponseType::CacheHit },
                ),
                None => r is None,
            },
    {
        let mut i: usize = 0;
        proof {
            assert(self.cache@.skip(0) =~= self.cache@);
        }
        while i < self.cache.len()
            invariant
                i <= self.cache.len(),
                cached(self.cache@, ip@) == cached(self.cache@.skip(i as int), ip@),
            decreases self.cache.len() - i,
        {
            proof {
                assert(self.cache@.skip(i as int).skip(1) =~= self.cache@.skip(i + 1));
                assert(self.cache@.skip(i as int)[0] == self.cache@[i as int]);
            }
            if str_eq(self.cache[i].ip.as_str(), ip) {
                return Some(
                    CachedIpInfoResponse::new(self.cache[i].info.duplicate(), CachedIpInfoResponseType::CacheHit),
                );
            }
            i += 1;
        }
        None
    }

    /// Remembers what the service said of `ip` and hands it on, marked as a
    /// miss. A later lookup of `ip` is a hit.
    pub fn remember(&mut self, ip: &str, info: IpInfo) -> (r: CachedIpInfoResponse)
        ensures
            final(self)@ == old(self)@.push(CacheLine { ip: final(self)@.last().ip, info }),
            final(self)@.last().ip@ == ip@,
            r == (CachedIpInfoResponse { ip_info: info, response_type: CachedIpInfoResponseType::CacheMiss }),
            cached(final(self)@, ip@) is Some,
            cached(old(self)@, ip@) is None ==> cached(final(self)@, ip@) == Some(info),
    {
        let copy = info.duplicate();
        let line = CacheLine { ip: owned(ip), info };
        proof {
            lemma_cached_push(self.cache@, line, ip@);
        }
        self.cache.push(line);
        CachedIpInfoResponse::new(copy, CachedIpInfoResponseType::CacheMiss)
    }
}

/// A new line answers for its address unless an older line already does,
/// and it changes no answer for any other address.
pub proof fn lemma_cached_push(lines: Seq<CacheLine>, line: CacheLine, ip: Seq<char>)
    ensures
        cached(lines.push(line), ip) == if cached(lines, ip) is Some {
            cached(lines, ip)
        } else if line.ip@ == ip {
            Some(line.info)
        } else {
            None
        },
    decreases lines.len(),
{
    let pushed = lines.push(line);
    if lines.len() == 0 {
        assert(pushed.skip(1) =~= Seq::<CacheLine>::empty());
        assert(pushed[0] == line);
        assert(cached(pushed.skip(1), ip) is None);
        assert(cached(lines, ip) is None);
    } else {
        assert(pushed[0] == lines[0]);
        assert(pushed.skip(1) =~= lines.skip(1).push(line));
        lemma_cached_push(lines.skip(1), line, ip);
        assert(cached(pushed, ip) == if pushed[0].ip@ == ip {
            Some(pushed[0].info)
        } else {
            cached(pushed.skip(1), ip)
        });
    }
}

} // verus!
