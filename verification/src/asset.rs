//! Costumes and sounds, and the files behind them.

use crate::resource::Resource;
use crate::schema::{Asset, Costume, Sound};
use vstd::prelude::*;
use vstd::string::StringExecFns;

verus! {

/// Describes the file behind a costume or sound.
#[derive(Debug, Clone, PartialEq, Eq)]
pub struct AssetBuilder {
    pub name: String,
    pub resource: Resource,
}

impl AssetBuilder {
    /// An asset called `name`, backed by `resource`.
    pub fn new(name: &str, resource: Resource) -> (b: AssetBuilder)
        ensures
            b.name@ == name@,
            b.resource == resource,
    {
        AssetBuilder { name: name.to_owned(), resource }
    }

    /// `asset` is the asset that `self` describes: named as the builder,
    /// identified by the digest of its resource, with the resource's
    /// extension as format, and `digest.extension` as file name.
    pub open spec fn describes(&self, asset: Asset) -> bool {
        &&& asset.name@ == self.name@
        &&& asset.asset_id@ == self.resource@.md5_hash
        &&& asset.data_format@ == self.resource@.file_extension
        &&& asset.md5ext is Some
        &&& asset.md5ext->Some_0@ == self.resource@.md5_hash + seq!['.']
            + self.resource@.file_extension
    }

    /// Builds the asset, and hands its resource to `res_buf`.
    pub fn build(self, res_buf: &mut Vec<Resource>) -> (asset: Asset)
        ensures
            self.describes(asset),
            final(res_buf)@ == old(res_buf)@.push(self.resource),
    {
        let extension = self.resource.file_extension();
        let md5_hash = self.resource.md5_hash();
        let mut md5ext = md5_hash.to_owned();
        md5ext.append(".");
        md5ext.append(extension);
        proof {
            reveal_strlit(".");
            assert("."@ =~= seq!['.']);
        }
        let asset = Asset {
            asset_id: md5_hash.to_owned(),
            name: self.name,
            md5ext: Some(md5ext),
            data_format: extension.to_owned(),
        };
        res_buf.push(self.resource);
        asset
    }
}

/// Describes a costume or backdrop.
#[derive(Debug, Clone, PartialEq, Eq)]
pub struct CostumeBuilder {
    pub rotation_center_x: i64,
    pub rotation_center_y: i64,
    pub asset: AssetBuilder,
}

impl CostumeBuilder {
    /// A costume that turns about its corner.
    pub fn new(asset_builder: AssetBuilder) -> (b: CostumeBuilder)
        ensures
            b.asset == asset_builder,
            b.rotation_center_x == 0,
            b.rotation_center_y == 0,
    {
        CostumeBuilder { asset: asset_builder, rotation_center_x: 0, rotation_center_y: 0 }
    }

    /// Sets the point that the costume turns about.
    pub fn set_rotation_center(&mut self, x: i64, y: i64) -> (b: &mut Self)
        ensures
            *b == (CostumeBuilder { rotation_center_x: x, rotation_center_y: y, ..*old(self) }),
            *final(self) == *final(b),
    {
        self.rotation_center_x = x;
        self.rotation_center_y = y;
        self
    }

    /// Sets the horizontal place of the point that the costume turns about.
    pub fn rotation_center_x(&mut self, x: i64) -> (b: &mut Self)
        ensures
            *b == (CostumeBuilder { rotation_center_x: x, ..*old(self) }),
            *final(self) == *final(b),
    {
        self.rotation_center_x = x;
        self
    }

    /// Sets the vertical place of the point that the costume turns about.
    pub fn rotation_center_y(&mut self, y: i64) -> (b: &mut Self)
        ensures
            *b == (CostumeBuilder { rotation_center_y: y, ..*old(self) }),
            *final(self) == *final(b),
    {
        self.rotation_center_y = y;
        self
    }

    /// Sets the file behind the costume.
    pub fn asset(&mut self, asset: AssetBuilder) -> (b: &mut Self)
        ensures
            *b == (CostumeBuilder { asset, ..*old(self) }),
            *final(self) == *final(b),
    {
        self.asset = asset;
        self
    }

    /// `costume` is the costume that `self` describes.
    pub open spec fn describes(&self, costume: Costume) -> bool {
        &&& costume.rotation_center_x == self.rotation_center_x
        &&& costume.rotation_center_y == self.rotation_center_y
        &&& costume.bitmap_resolution == Some(1i64)
        &&& self.asset.describes(costume.asset)
    }

    /// Builds the costume, and hands its resource to `file_buff`.
    pub fn build(self, file_buff: &mut Vec<Resource>) -> (costume: Costume)
        ensures
            self.describes(costume),
            final(file_buff)@ == old(file_buff)@.push(self.asset.resource),
    {
        Costume {
            rotation_center_x: self.rotation_center_x,
            rotation_center_y: self.rotation_center_y,
            bitmap_resolution: Some(1),
            asset: self.asset.build(file_buff),
        }
    }
}

/// Describes a sound.
#[derive(Debug, Clone, PartialEq, Eq)]
pub struct SoundBuilder {
    pub rate: u64,
    pub sample_count: u64,
    pub format: Option<String>,
    pub asset: AssetBuilder,
}

impl SoundBuilder {
    /// Sets the sampling rate.
    pub fn rate(&mut self, rate: u64) -> (b: &mut Self)
        ensures
            *b == (SoundBuilder { rate, ..*old(self) }),
            *final(self) == *final(b),
    {
        self.rate = rate;
        self
    }

    /// Sets the number of samples.
    pub fn sample_count(&mut self, sample_count: u64) -> (b: &mut Self)
        ensures
            *b == (SoundBuilder { sample_count, ..*old(self) }),
            *final(self) == *final(b),
    {
        self.sample_count = sample_count;
        self
    }

    /// Sets the sound's format.
    pub fn format(&mut self, format: Option<String>) -> (b: &mut Self)
        ensures
            *b == (SoundBuilder { format, ..*old(self) }),
            *final(self) == *final(b),
    {
        self.format = format;
        self
    }

    /// Sets the file behind the sound.
    pub fn asset(&mut self, asset: AssetBuilder) -> (b: &mut Self)
        ensures
            *b == (SoundBuilder { asset, ..*old(self) }),
            *final(self) == *final(b),
    {
        self.asset = asset;
        self
    }

    /// `sound` is the sound that `self` describes.
    pub open spec fn describes(&self, sound: Sound) -> bool {
        &&& sound.rate == self.rate
        &&& sound.sample_count == self.sample_count
        &&& sound.format == self.format
        &&& self.asset.describes(sound.asset)
    }

    /// Builds the sound, and hands its resource to `file_buff`.
    pub fn build(self, file_buff: &mut Vec<Resource>) -> (sound: Sound)
        ensures
            self.describes(sound),
            final(file_buff)@ == old(file_buff)@.push(self.asset.resource),
    {
        Sound {
            rate: self.rate,
            sample_count: self.sample_count,
            format: self.format,
            asset: self.asset.build(file_buff),
        }
    }
}

} // verus!
