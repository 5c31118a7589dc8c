//! The light block that the fragment stage reads.

use vstd::prelude::*;
use crate::single::ONE;

verus! {

/// A light: two colours with alpha and four scalar intensities, each a
/// single-precision pattern. In memory it is twelve words, 48 bytes.
#[derive(Clone, Copy, Debug)]
pub struct Light {
    pub color: [u32; 4],
    pub specular_color: [u32; 4],
    pub ambient_intensity: u32,
    pub diffuse_intensity: u32,
    pub specular_intensity: u32,
    pub specular_shininess: u32,
}

impl Light {
    /// The twelve words of the light in memory order.
    pub open spec fn words(&self) -> Seq<u32> {
        self.color@ + self.specular_color@ + seq![
            self.ambient_intensity,
            self.diffuse_intensity,
            self.specular_intensity,
            self.specular_shininess,
        ]
    }

    /// The twelve words of the light in memory order.
    pub fn to_words(&self) -> (w: [u32; 12])
        ensures
            w@ == self.words(),
    {
        let w: [u32; 12] = [
            self.color[0],
            self.color[1],
            self.color[2],
            self.color[3],
            self.specular_color[0],
            self.specular_color[1],
            self.specular_color[2],
            self.specular_color[3],
            self.ambient_intensity,
            self.diffuse_intensity,
            self.specular_intensity,
            self.specular_shininess,
        ];
        assert(w@ =~= self.words());
        w
    }
}

/// A light of colour `c` and specular colour `sc`, both opaque, with ambient,
/// diffuse and specular intensity `ai`, `di`, `si` and shininess `ss`.
pub fn light(c: [u32; 3], sc: [u32; 3], ai: u32, di: u32, si: u32, ss: u32) -> (l: Light)
    ensures
        l.color@ == c@.push(ONE),
        l.specular_color@ == sc@.push(ONE),
        l.ambient_intensity == ai,
        l.diffuse_intensity == di,
        l.specular_intensity == si,
        l.specular_shininess == ss,
{
    let l = Light {
        color: [c[0], c[1], c[2], ONE],
        specular_color: [sc[0], sc[1], sc[2], ONE],
        ambient_intensity: ai,
        diffuse_intensity: di,
        specular_intensity: si,
        specular_shininess: ss,
    };
    assert(l.color@ =~= c@.push(ONE));
    assert(l.specular_color@ =~= sc@.push(ONE));
    l
}

} // verus!
